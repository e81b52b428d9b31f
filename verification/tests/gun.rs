use std::rc::Rc;
use tap_game::gun::{DuplicateError, Gun, Guns, InvalidQuery, NotFound, TypeOfGun};

#[test]
pub fn test_display_heavy() {
    let gun = TypeOfGun::Heavy;
    assert_eq!(gun.to_string(), "Heavy");
}

#[test]
pub fn test_display_pistol() {
    let gun = TypeOfGun::Pistol;
    assert_eq!(gun.to_string(), "Pistol");
}

#[test]
pub fn test_display_knife() {
    let gun = TypeOfGun::Knife;
    assert_eq!(gun.to_string(), "Knife");
}

#[test]
pub fn add_gun_should_return_error_when_gun_name_is_exist() {
    let mut guns = Guns::new();
    let name = "knife";
    assert!(guns
        .add_gun(name.to_string(), 100, 20, 100, TypeOfGun::Knife)
        .is_ok());
    assert!(guns
        .add_gun(name.to_string(), 10, 2, 500, TypeOfGun::Knife)
        .is_err());
}

#[test]
pub fn add_gun_should_add_a_gun_in_list_of_gun() {
    let mut guns = Guns::new();
    let name = "knife";
    let price = 100;
    let damage = 20;
    let gift = 10;
    let type_of = TypeOfGun::Knife;
    assert!(guns
        .add_gun(name.to_string(), price, damage, gift, type_of)
        .is_ok());
    assert_eq!(guns.list().len(), 1);
    assert_eq!(
        guns.list()[0],
        Rc::new(Gun::new(name.to_string(), price, damage, gift, type_of))
    );
}

#[test]
pub fn get_knife_when_has_not_knife_shold_be_retur_error() {
    let mut guns = Guns::new();
    guns.add_gun("not a knife".to_string(), 100, 10, 10, TypeOfGun::Heavy)
        .unwrap();
    assert!(guns.get_knife().is_err());
}

#[test]
pub fn get_knife_when_has_knife_shold_be_retur_knife() {
    let mut guns = Guns::new();
    let name = "knife";
    let price = 100;
    let damage = 20;
    let gift = 10;
    let type_of = TypeOfGun::Knife;
    guns.add_gun(name.to_string(), price, damage, gift, type_of)
        .unwrap();
    let result = guns.get_knife();
    assert!(result.is_ok());
    assert_eq!(
        result.unwrap(),
        Rc::new(Gun::new(name.to_string(), price, damage, gift, type_of))
    );
}

#[test]
pub fn get_gun_func_when_get_a_name_of_gun_does_not_exist_should_be_return_error() {
    let mut guns = Guns::new();
    let name = "test gun";
    let fake_name = "fake gun";
    guns.add_gun(name.to_string(), 100, 10, 10, TypeOfGun::Heavy)
        .unwrap();
    assert!(guns.get_gun(&fake_name).is_err());
}

#[test]
pub fn get_gun_func_when_get_a_name_of_gun_exists_should_be_return_gun() {
    let mut guns = Guns::new();
    let name = "knife";
    let price = 100;
    let damage = 20;
    let gift = 10;
    let type_of = TypeOfGun::Knife;
    guns.add_gun(name.to_string(), price, damage, gift, type_of)
        .unwrap();
    let result = guns.get_gun(&name);
    assert!(result.is_ok());
    assert_eq!(
        result.unwrap(),
        Rc::new(Gun::new(name.to_string(), price, damage, gift, type_of))
    );
}

#[test]
pub fn get_guns_func_when_get_knife_type_should_be_error() {
    let guns = Guns::new();
    assert!(guns.get_guns_with_type(TypeOfGun::Knife).is_err());
}

#[test]
pub fn get_guns_type_func_when_get_a_type_of_gun_should_be_return_list_of_gun_with_this_type() {
    let mut guns = Guns::new();
    let type_of = TypeOfGun::Heavy;
    let other_type_of = TypeOfGun::Pistol;
    guns.add_gun("gun 1".to_string(), 100, 10, 20, type_of)
        .unwrap();
    guns.add_gun("gun 2".to_string(), 100, 10, 20, type_of)
        .unwrap();
    guns.add_gun("gun 3".to_string(), 100, 10, 20, type_of)
        .unwrap();
    guns.add_gun("gun with other type".to_string(), 50, 10, 20, other_type_of)
        .unwrap();

    let result = guns.get_guns_with_type(type_of);
    assert!(result.is_ok());
    assert_eq!(result.unwrap().len(), 3);
}

fn names_of(list: &[Rc<Gun>]) -> Vec<String> {
    list.iter().map(|gun| gun.get_name().to_string()).collect()
}

#[test]
fn new_catalog_is_empty() {
    let guns = Guns::new();
    assert!(guns.list().is_empty());
    assert_eq!(guns.get_knife(), Err(NotFound));
    assert_eq!(guns.get_gun("anything"), Err(NotFound));
    assert_eq!(guns.get_guns_with_type(TypeOfGun::Heavy), Ok(vec![]));
}

#[test]
fn gun_getters_give_back_the_fields() {
    let gun = Gun::new("ak".to_string(), 2700, 36, -5, TypeOfGun::Heavy);
    assert_eq!(gun.get_name(), "ak");
    assert_eq!(gun.get_price(), 2700);
    assert_eq!(gun.get_damage(), 36);
    assert_eq!(gun.get_gift(), -5);
    assert_eq!(gun.get_type_of(), TypeOfGun::Heavy);
}

#[test]
fn guns_are_equal_when_all_five_fields_are() {
    let gun = Gun::new("ak".to_string(), 1, 2, 3, TypeOfGun::Heavy);
    assert_eq!(gun, Gun::new("ak".to_string(), 1, 2, 3, TypeOfGun::Heavy));
    assert_ne!(gun, Gun::new("aK".to_string(), 1, 2, 3, TypeOfGun::Heavy));
    assert_ne!(gun, Gun::new("ak".to_string(), 9, 2, 3, TypeOfGun::Heavy));
    assert_ne!(gun, Gun::new("ak".to_string(), 1, 9, 3, TypeOfGun::Heavy));
    assert_ne!(gun, Gun::new("ak".to_string(), 1, 2, 9, TypeOfGun::Heavy));
    assert_ne!(gun, Gun::new("ak".to_string(), 1, 2, 3, TypeOfGun::Pistol));
}

#[test]
fn any_run_of_additions_keeps_names_unique_and_one_knife() {
    let offers = [
        ("blade", TypeOfGun::Knife),
        ("ak", TypeOfGun::Heavy),
        ("blade", TypeOfGun::Heavy),
        ("dagger", TypeOfGun::Knife),
        ("ak", TypeOfGun::Pistol),
        ("usp", TypeOfGun::Pistol),
        ("usp", TypeOfGun::Knife),
        ("m4", TypeOfGun::Heavy),
    ];
    let mut guns = Guns::new();
    let mut results = vec![];
    for (name, type_of) in offers {
        results.push(guns.add_gun(name.to_string(), 1, 2, 3, type_of));
    }
    assert_eq!(
        results,
        vec![
            Ok(()),
            Ok(()),
            Err(DuplicateError::NameExists),
            Err(DuplicateError::KnifeExists),
            Err(DuplicateError::NameExists),
            Ok(()),
            Err(DuplicateError::NameExists),
            Ok(()),
        ]
    );
    assert_eq!(names_of(guns.list()), vec!["blade", "ak", "usp", "m4"]);
    let list = guns.list();
    for i in 0..list.len() {
        for j in (i + 1)..list.len() {
            assert_ne!(list[i].get_name(), list[j].get_name());
        }
    }
    let knives = list
        .iter()
        .filter(|gun| gun.get_type_of() == TypeOfGun::Knife)
        .count();
    assert_eq!(knives, 1);
}

#[test]
fn second_gun_of_a_name_fails_with_name_exists() {
    let mut guns = Guns::new();
    assert_eq!(guns.add_gun("x".to_string(), 1, 2, 3, TypeOfGun::Heavy), Ok(()));
    assert_eq!(
        guns.add_gun("x".to_string(), 40, 50, 60, TypeOfGun::Pistol),
        Err(DuplicateError::NameExists)
    );
    assert_eq!(guns.list().len(), 1);
    assert_eq!(
        guns.list()[0],
        Rc::new(Gun::new("x".to_string(), 1, 2, 3, TypeOfGun::Heavy))
    );
}

#[test]
fn names_are_compared_with_case() {
    let mut guns = Guns::new();
    assert_eq!(guns.add_gun("Ak".to_string(), 1, 2, 3, TypeOfGun::Heavy), Ok(()));
    assert_eq!(guns.add_gun("ak".to_string(), 1, 2, 3, TypeOfGun::Heavy), Ok(()));
    assert_eq!(guns.get_gun("AK"), Err(NotFound));
    assert_eq!(guns.list().len(), 2);
}

#[test]
fn second_knife_fails_with_knife_exists() {
    let mut guns = Guns::new();
    assert_eq!(guns.add_gun("ak".to_string(), 1, 2, 3, TypeOfGun::Heavy), Ok(()));
    assert_eq!(guns.add_gun("blade".to_string(), 4, 5, 6, TypeOfGun::Knife), Ok(()));
    assert_eq!(
        guns.add_gun("dagger".to_string(), 7, 8, 9, TypeOfGun::Knife),
        Err(DuplicateError::KnifeExists)
    );
    assert_eq!(names_of(guns.list()), vec!["ak", "blade"]);
    assert_eq!(
        guns.get_knife(),
        Ok(Rc::new(Gun::new("blade".to_string(), 4, 5, 6, TypeOfGun::Knife)))
    );
    assert_eq!(guns.get_gun("dagger"), Err(NotFound));
}

#[test]
fn taken_name_is_reported_before_second_knife() {
    let mut guns = Guns::new();
    guns.add_gun("blade".to_string(), 4, 5, 6, TypeOfGun::Knife).unwrap();
    assert_eq!(
        guns.add_gun("blade".to_string(), 4, 5, 6, TypeOfGun::Knife),
        Err(DuplicateError::NameExists)
    );
}

#[test]
fn get_gun_gives_the_gun_added_under_the_name() {
    let mut guns = Guns::new();
    guns.add_gun("ak".to_string(), 1, 2, 3, TypeOfGun::Heavy).unwrap();
    guns.add_gun("usp".to_string(), 4, 5, 6, TypeOfGun::Pistol).unwrap();
    guns.add_gun("usp".to_string(), 7, 8, 9, TypeOfGun::Heavy).unwrap_err();
    guns.add_gun("m4".to_string(), 10, 11, 12, TypeOfGun::Heavy).unwrap();
    assert_eq!(
        guns.get_gun("usp"),
        Ok(Rc::new(Gun::new("usp".to_string(), 4, 5, 6, TypeOfGun::Pistol)))
    );
    assert_eq!(
        guns.get_gun("m4"),
        Ok(Rc::new(Gun::new("m4".to_string(), 10, 11, 12, TypeOfGun::Heavy)))
    );
    assert_eq!(guns.get_gun("us"), Err(NotFound));
    assert_eq!(guns.get_gun(""), Err(NotFound));
}

#[test]
fn get_gun_shares_the_gun_of_the_catalog() {
    let mut guns = Guns::new();
    guns.add_gun("ak".to_string(), 1, 2, 3, TypeOfGun::Heavy).unwrap();
    let found = guns.get_gun("ak").unwrap();
    assert!(Rc::ptr_eq(&found, &guns.list()[0]));
}

#[test]
fn knives_cannot_be_listed_whatever_the_catalog_holds() {
    let mut guns = Guns::new();
    assert_eq!(guns.get_guns_with_type(TypeOfGun::Knife), Err(InvalidQuery));
    guns.add_gun("blade".to_string(), 4, 5, 6, TypeOfGun::Knife).unwrap();
    guns.add_gun("ak".to_string(), 1, 2, 3, TypeOfGun::Heavy).unwrap();
    assert_eq!(guns.get_guns_with_type(TypeOfGun::Knife), Err(InvalidQuery));
}

#[test]
fn guns_of_a_type_come_in_the_order_they_were_added() {
    let mut guns = Guns::new();
    guns.add_gun("gun 1".to_string(), 100, 10, 20, TypeOfGun::Heavy).unwrap();
    guns.add_gun("pistol".to_string(), 50, 10, 20, TypeOfGun::Pistol).unwrap();
    guns.add_gun("gun 2".to_string(), 101, 11, 21, TypeOfGun::Heavy).unwrap();
    guns.add_gun("blade".to_string(), 1, 1, 1, TypeOfGun::Knife).unwrap();
    guns.add_gun("gun 3".to_string(), 102, 12, 22, TypeOfGun::Heavy).unwrap();

    let heavy = guns.get_guns_with_type(TypeOfGun::Heavy).unwrap();
    assert_eq!(
        heavy,
        vec![
            Rc::new(Gun::new("gun 1".to_string(), 100, 10, 20, TypeOfGun::Heavy)),
            Rc::new(Gun::new("gun 2".to_string(), 101, 11, 21, TypeOfGun::Heavy)),
            Rc::new(Gun::new("gun 3".to_string(), 102, 12, 22, TypeOfGun::Heavy)),
        ]
    );
    let pistols = guns.get_guns_with_type(TypeOfGun::Pistol).unwrap();
    assert_eq!(names_of(&pistols), vec!["pistol"]);
    assert_eq!(pistols.len(), 1);
}

#[test]
fn three_heavy_guns_and_one_pistol() {
    let mut guns = Guns::new();
    guns.add_gun("heavy 1".to_string(), 1, 1, 1, TypeOfGun::Heavy).unwrap();
    guns.add_gun("heavy 2".to_string(), 2, 2, 2, TypeOfGun::Heavy).unwrap();
    guns.add_gun("heavy 3".to_string(), 3, 3, 3, TypeOfGun::Heavy).unwrap();
    guns.add_gun("pistol 1".to_string(), 4, 4, 4, TypeOfGun::Pistol).unwrap();
    let heavy = guns.get_guns_with_type(TypeOfGun::Heavy).unwrap();
    assert_eq!(heavy.len(), 3);
    assert_eq!(names_of(&heavy), vec!["heavy 1", "heavy 2", "heavy 3"]);
    assert_eq!(guns.get_guns_with_type(TypeOfGun::Pistol).unwrap().len(), 1);
}

#[test]
fn list_of_a_type_is_the_callers_own() {
    let mut guns = Guns::new();
    guns.add_gun("heavy 1".to_string(), 1, 1, 1, TypeOfGun::Heavy).unwrap();
    guns.add_gun("heavy 2".to_string(), 2, 2, 2, TypeOfGun::Heavy).unwrap();
    let mut heavy = guns.get_guns_with_type(TypeOfGun::Heavy).unwrap();
    heavy.clear();
    heavy.push(Rc::new(Gun::new("other".to_string(), 9, 9, 9, TypeOfGun::Heavy)));
    assert_eq!(names_of(guns.list()), vec!["heavy 1", "heavy 2"]);
    assert_eq!(
        names_of(&guns.get_guns_with_type(TypeOfGun::Heavy).unwrap()),
        vec!["heavy 1", "heavy 2"]
    );
    assert_eq!(guns.get_gun("other"), Err(NotFound));
}

#[test]
fn there_is_no_list_of_a_type_without_guns() {
    let mut guns = Guns::new();
    guns.add_gun("blade".to_string(), 4, 5, 6, TypeOfGun::Knife).unwrap();
    assert_eq!(guns.get_guns_with_type(TypeOfGun::Pistol), Ok(vec![]));
}
