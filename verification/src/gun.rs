//! The gun catalog: purchasable guns, unique by name, with at most one knife.

use std::rc::Rc;
use vstd::prelude::*;

verus! {

/// The category of a gun. A catalog may hold many heavy guns and pistols, but
/// only one knife.
#[derive(Clone, Copy, Debug, PartialEq, Eq, Structural)]
pub enum TypeOfGun {
    Heavy,
    Pistol,
    Knife,
}

impl TypeOfGun {
    /// The display name of the category, as a sequence of characters.
    pub open spec fn name(self) -> Seq<char> {
        match self {
            TypeOfGun::Heavy => "Heavy"@,
            TypeOfGun::Pistol => "Pistol"@,
            TypeOfGun::Knife => "Knife"@,
        }
    }

    /// The display name of the category.
    pub fn to_string(&self) -> (text: String)
        ensures
            text@ == self.name(),
    {
        match self {
            TypeOfGun::Heavy => "Heavy".to_owned(),
            TypeOfGun::Pistol => "Pistol".to_owned(),
            TypeOfGun::Knife => "Knife".to_owned(),
        }
    }
}

/// What a gun is, as a mathematical record.
pub struct GunView {
    pub name: Seq<char>,
    pub price: int,
    pub damage: int,
    pub gift: int,
    pub type_of: TypeOfGun,
}

/// One purchasable gun. It is built once and never changes afterwards.
#[derive(Debug)]
pub struct Gun {
    name: String,
    price: i32,
    damage: i32,
    gift: i32,
    type_of: TypeOfGun,
}

impl View for Gun {
    type V = GunView;

    closed spec fn view(&self) -> GunView {
        GunView {
            name: self.name@,
            price: self.price as int,
            damage: self.damage as int,
            gift: self.gift as int,
            type_of: self.type_of,
        }
    }
}

impl Gun {
    /// A gun of the given name, price, damage, gift and category.
    pub fn new(name: String, price: i32, damage: i32, gift: i32, type_of: TypeOfGun) -> (gun: Gun)
        ensures
            gun@ == (GunView {
                name: name@,
                price: price as int,
                damage: damage as int,
                gift: gift as int,
                type_of,
            }),
    {
        Gun { name, price, damage, gift, type_of }
    }

    /// The name of the gun, by which a catalog tells it from the others.
    pub fn get_name(&self) -> (name: &str)
        ensures
            name@ == self@.name,
    {
        self.name.as_str()
    }

    /// What the gun costs.
    pub fn get_price(&self) -> (price: i32)
        ensures
            price == self@.price,
    {
        self.price
    }

    /// The damage that the gun does.
    pub fn get_damage(&self) -> (damage: i32)
        ensures
            damage == self@.damage,
    {
        self.damage
    }

    /// The bonus that comes with the gun when a player gets it.
    pub fn get_gift(&self) -> (gift: i32)
        ensures
            gift == self@.gift,
    {
        self.gift
    }

    /// The category of the gun.
    pub fn get_type_of(&self) -> (type_of: TypeOfGun)
        ensures
            type_of == self@.type_of,
    {
        self.type_of
    }
}

impl PartialEq for Gun {
    /// Two guns are equal when all their five fields are.
    fn eq(&self, other: &Self) -> (equal: bool) {
        self.damage == other.damage && self.gift == other.gift && self.name == other.name
            && self.price == other.price && self.type_of == other.type_of
    }
}

impl vstd::std_specs::cmp::PartialEqSpecImpl for Gun {
    open spec fn obeys_eq_spec() -> bool {
        true
    }

    open spec fn eq_spec(&self, other: &Self) -> bool {
        self@ == other@
    }
}

/// Why a gun could not be added to a catalog.
#[derive(Clone, Copy, Debug, PartialEq, Eq, Structural)]
pub enum DuplicateError {
    /// The catalog already holds a gun of that name.
    NameExists,
    /// The gun is a knife and the catalog already holds one.
    KnifeExists,
}

/// No gun in the catalog answers the lookup.
#[derive(Clone, Copy, Debug, PartialEq, Eq, Structural)]
pub struct NotFound;

/// The category asked for cannot be listed: the knife has a lookup of its own.
#[derive(Clone, Copy, Debug, PartialEq, Eq, Structural)]
pub struct InvalidQuery;

/// Some gun in `guns` is called `name`.
pub open spec fn has_name(guns: Seq<GunView>, name: Seq<char>) -> bool {
    exists|i: int| 0 <= i < guns.len() && #[trigger] guns[i].name == name
}

/// Some gun in `guns` is a knife.
pub open spec fn has_knife(guns: Seq<GunView>) -> bool {
    exists|i: int| 0 <= i < guns.len() && #[trigger] guns[i].type_of == TypeOfGun::Knife
}

/// The rules every catalog obeys: no two guns share a name, and at most one
/// gun is a knife.
pub open spec fn catalog_valid(guns: Seq<GunView>) -> bool {
    &&& forall|i: int, j: int|
        0 <= i < j < guns.len() ==> #[trigger] guns[i].name != #[trigger] guns[j].name
    &&& forall|i: int, j: int|
        0 <= i < j < guns.len() && #[trigger] guns[i].type_of == TypeOfGun::Knife
            ==> #[trigger] guns[j].type_of != TypeOfGun::Knife
}

/// What adding `gun` to `guns` gives: the catalog with `gun` at its end, or the
/// reason for the refusal. A name that is taken is reported before a second knife.
pub open spec fn add_outcome(guns: Seq<GunView>, gun: GunView) -> Result<
    Seq<GunView>,
    DuplicateError,
> {
    if has_name(guns, gun.name) {
        Err(DuplicateError::NameExists)
    } else if gun.type_of == TypeOfGun::Knife && has_knife(guns) {
        Err(DuplicateError::KnifeExists)
    } else {
        Ok(guns.push(gun))
    }
}

/// `i` is the position of the first gun in `guns` called `name`.
pub open spec fn is_first_named(guns: Seq<GunView>, name: Seq<char>, i: int) -> bool {
    &&& 0 <= i < guns.len()
    &&& guns[i].name == name
    &&& forall|j: int| 0 <= j < i ==> #[trigger] guns[j].name != name
}

/// `i` is the position of the first knife in `guns`.
pub open spec fn is_first_knife(guns: Seq<GunView>, i: int) -> bool {
    &&& 0 <= i < guns.len()
    &&& guns[i].type_of == TypeOfGun::Knife
    &&& forall|j: int| 0 <= j < i ==> #[trigger] guns[j].type_of != TypeOfGun::Knife
}

/// The guns of `guns` whose category is `type_of`, in the order they stand in.
pub open spec fn of_type(guns: Seq<GunView>, type_of: TypeOfGun) -> Seq<GunView> {
    guns.filter(|gun: GunView| gun.type_of == type_of)
}

/// The records behind a list of shared guns.
spec fn views_of(list: Seq<Rc<Gun>>) -> Seq<GunView> {
    list.map_values(|gun: Rc<Gun>| gun@)
}

/// A catalog of guns, in the order they were added.
pub struct Guns {
    list: Vec<Rc<Gun>>,
}

impl View for Guns {
    type V = Seq<GunView>;

    closed spec fn view(&self) -> Seq<GunView> {
        views_of(self.list@)
    }
}

impl Guns {
    /// Every catalog obeys the rules, at all times.
    #[verifier::type_invariant]
    spec fn inv(&self) -> bool {
        catalog_valid(self@)
    }

    /// An empty catalog.
    pub fn new() -> (guns: Guns)
        ensures
            guns@ == Seq::<GunView>::empty(),
    {
        Guns { list: Vec::new() }
    }

    /// The guns of the catalog, in the order they were added.
    pub fn list(&self) -> (list: &Vec<Rc<Gun>>)
        ensures
            list@.len() == self@.len(),
            forall|i: int| 0 <= i < list@.len() ==> (#[trigger] list@[i])@ == self@[i],
            catalog_valid(self@),
    {
        proof {
            use_type_invariant(self);
        }
        &self.list
    }

    /// The position of the first gun called `name`, if there is one.
    fn position_of_name(&self, name: &String) -> (found: Option<usize>)
        ensures
            match found {
                Some(i) => is_first_named(self@, name@, i as int),
                None => !has_name(self@, name@),
            },
    {
        let mut i: usize = 0;
        while i < self.list.len()
            invariant
                i <= self.list.len(),
                forall|j: int| 0 <= j < i ==> #[trigger] self@[j].name != name@,
            decreases self.list.len() - i,
        {
            if self.list[i].name == *name {
                return Some(i);
            }
            i += 1;
        }
        None
    }

    /// The position of the first knife, if there is one.
    fn position_of_knife(&self) -> (found: Option<usize>)
        ensures
            match found {
                Some(i) => is_first_knife(self@, i as int),
                None => !has_knife(self@),
            },
    {
        let mut i: usize = 0;
        while i < self.list.len()
            invariant
                i <= self.list.len(),
                forall|j: int| 0 <= j < i ==> #[trigger] self@[j].type_of != TypeOfGun::Knife,
            decreases self.list.len() - i,
        {
            if self.list[i].type_of == TypeOfGun::Knife {
                return Some(i);
            }
            i += 1;
        }
        None
    }

    /// The knife of the catalog: its first gun of that category.
    pub fn get_knife(&self) -> (result: Result<Rc<Gun>, NotFound>)
        ensures
            match result {
                Ok(gun) => exists|i: int| is_first_knife(self@, i) && gun@ == self@[i],
                Err(_) => !has_knife(self@),
            },
    {
        match self.position_of_knife() {
            Some(index) => Ok(self.list[index].clone()),
            None => Err(NotFound),
        }
    }

    /// The gun called `name`: the first of that name in the catalog.
    pub fn get_gun(&self, name: &str) -> (result: Result<Rc<Gun>, NotFound>)
        ensures
            match result {
                Ok(gun) => exists|i: int| is_first_named(self@, name@, i) && gun@ == self@[i],
                Err(_) => !has_name(self@, name@),
            },
    {
        let wanted = name.to_owned();
        match self.position_of_name(&wanted) {
            Some(index) => Ok(self.list[index].clone()),
            None => Err(NotFound),
        }
    }

    /// The heavy guns, or the pistols, of the catalog, in the order they were
    /// added. The list is the caller's own: the catalog keeps no hold on it.
    /// Knives cannot be listed here.
    pub fn get_guns_with_type(&self, type_of_gun: TypeOfGun) -> (result: Result<
        Vec<Rc<Gun>>,
        InvalidQuery,
    >)
        ensures
            type_of_gun == TypeOfGun::Knife <==> result is Err,
            result matches Ok(list) ==> {
                &&& list@.len() == of_type(self@, type_of_gun).len()
                &&& forall|i: int|
                    0 <= i < list@.len() ==> (#[trigger] list@[i])@ == of_type(
                        self@,
                        type_of_gun,
                    )[i]
            },
    {
        if type_of_gun == TypeOfGun::Knife {
            return Err(InvalidQuery);
        }
        let ghost wanted = |gun: GunView| gun.type_of == type_of_gun;
        let mut list: Vec<Rc<Gun>> = Vec::new();
        let mut i: usize = 0;
        while i < self.list.len()
            invariant
                i <= self.list.len(),
                wanted == |gun: GunView| gun.type_of == type_of_gun,
                views_of(list@) == self@.take(i as int).filter(wanted),
            decreases self.list.len() - i,
        {
            proof {
                let next = self@.take(i as int + 1);
                assert(next.drop_last() == self@.take(i as int));
                reveal(Seq::filter);
            }
            if self.list[i].type_of == type_of_gun {
                list.push(self.list[i].clone());
            }
            i += 1;
        }
        assert(self@.take(i as int) == self@);
        Ok(list)
    }

    /// Adds a gun at the end of the catalog, unless its name is taken or it
    /// would be a second knife; a refusal leaves the catalog as it was. The
    /// catalog obeys its rules before the call as after it.
    pub fn add_gun(
        &mut self,
        name: String,
        price: i32,
        damage: i32,
        gift: i32,
        type_of: TypeOfGun,
    ) -> (result: Result<(), DuplicateError>)
        ensures
            catalog_valid(old(self)@),
            catalog_valid(final(self)@),
            match add_outcome(
                old(self)@,
                GunView {
                    name: name@,
                    price: price as int,
                    damage: damage as int,
                    gift: gift as int,
                    type_of,
                },
            ) {
                Ok(guns) => result == Ok::<(), DuplicateError>(()) && final(self)@ == guns,
                Err(error) => result == Err::<(), DuplicateError>(error) && final(self)@ == old(
                    self,
                )@,
            },
    {
        proof {
            use_type_invariant(&*self);
        }
        if self.position_of_name(&name).is_some() {
            return Err(DuplicateError::NameExists);
        }
        if type_of == TypeOfGun::Knife && self.position_of_knife().is_some() {
            return Err(DuplicateError::KnifeExists);
        }
        let gun = Rc::new(Gun::new(name, price, damage, gift, type_of));
        // The list leaves the catalog while it grows: the catalog's invariant
        // holds whenever the catalog is whole.
        let mut taken = Guns::new();
        std::mem::swap(self, &mut taken);
        let mut list = taken.list;
        list.push(gun);
        assert(views_of(list@) == old(self)@.push(gun@));
        *self = Guns { list };
        Ok(())
    }
}

/// What a run of additions leaves of a catalog that began as `guns`: the
/// additions are tried in order, and one that is refused changes nothing.
pub open spec fn add_all(guns: Seq<GunView>, additions: Seq<GunView>) -> Seq<GunView>
    decreases additions.len(),
{
    if additions.len() == 0 {
        guns
    } else {
        let before = add_all(guns, additions.drop_last());
        match add_outcome(before, additions.last()) {
            Ok(after) => after,
            Err(_) => before,
        }
    }
}

/// An addition that is accepted leaves a valid catalog valid.
pub proof fn lemma_add_keeps_valid(guns: Seq<GunView>, gun: GunView)
    requires
        catalog_valid(guns),
    ensures
        add_outcome(guns, gun) matches Ok(after) ==> catalog_valid(after),
{
}

/// Whatever guns are offered to an empty catalog, and in whatever order, no
/// two guns of the catalog share a name and at most one of them is a knife.
pub proof fn lemma_adds_keep_valid(additions: Seq<GunView>)
    ensures
        catalog_valid(add_all(Seq::empty(), additions)),
    decreases additions.len(),
{
    if additions.len() > 0 {
        lemma_adds_keep_valid(additions.drop_last());
        lemma_add_keeps_valid(add_all(Seq::empty(), additions.drop_last()), additions.last());
    }
}

/// Once a gun has been added, a second gun of the same name is refused for its
/// name, whatever its other fields are.
pub proof fn lemma_same_name_is_refused(guns: Seq<GunView>, first: GunView, second: GunView)
    requires
        add_outcome(guns, first) is Ok,
        second.name == first.name,
    ensures
        add_outcome(add_outcome(guns, first)->Ok_0, second) == Err::<
            Seq<GunView>,
            DuplicateError,
        >(DuplicateError::NameExists),
{
    let after = add_outcome(guns, first)->Ok_0;
    assert(after[guns.len() as int].name == second.name);
}

/// A knife whose name is free is refused exactly when the catalog has a knife
/// already; otherwise it goes to the end of the catalog.
pub proof fn lemma_knife_is_single(guns: Seq<GunView>, knife: GunView)
    requires
        knife.type_of == TypeOfGun::Knife,
        !has_name(guns, knife.name),
    ensures
        has_knife(guns) ==> add_outcome(guns, knife) == Err::<Seq<GunView>, DuplicateError>(
            DuplicateError::KnifeExists,
        ),
        !has_knife(guns) ==> add_outcome(guns, knife) == Ok::<Seq<GunView>, DuplicateError>(
            guns.push(knife),
        ),
{
}

/// At most one position is that of the first gun of a given name.
pub proof fn lemma_first_named_is_unique(guns: Seq<GunView>, name: Seq<char>, i: int, j: int)
    requires
        is_first_named(guns, name, i),
        is_first_named(guns, name, j),
    ensures
        i == j,
{
}

/// A lookup by name finds the gun that was last added under that name, equal
/// to it field by field: it stands at the end of the catalog, and no other gun
/// of the catalog has its name.
pub proof fn lemma_added_gun_is_found(guns: Seq<GunView>, gun: GunView)
    requires
        add_outcome(guns, gun) is Ok,
    ensures
        ({
            let after = add_outcome(guns, gun)->Ok_0;
            &&& is_first_named(after, gun.name, guns.len() as int)
            &&& after[guns.len() as int] == gun
            &&& forall|i: int| is_first_named(after, gun.name, i) ==> i == guns.len()
        }),
{
    let after = add_outcome(guns, gun)->Ok_0;
    assert forall|j: int| 0 <= j < guns.len() implies #[trigger] after[j].name != gun.name by {
        assert(guns[j].name == after[j].name);
    }
}

/// A gun of the catalog stays where it is when another gun is added, and a
/// lookup by its name finds it as before.
pub proof fn lemma_additions_keep_earlier_guns(
    guns: Seq<GunView>,
    gun: GunView,
    name: Seq<char>,
    i: int,
)
    requires
        is_first_named(guns, name, i),
        add_outcome(guns, gun) is Ok,
    ensures
        is_first_named(add_outcome(guns, gun)->Ok_0, name, i),
        add_outcome(guns, gun)->Ok_0[i] == guns[i],
{
    let after = add_outcome(guns, gun)->Ok_0;
    assert forall|j: int| 0 <= j < i implies #[trigger] after[j].name != name by {
        assert(guns[j].name == after[j].name);
    }
}

/// The list of a category holds guns of that category only, and every gun of
/// the catalog that is of the category.
pub proof fn lemma_of_type_holds_the_type(guns: Seq<GunView>, type_of: TypeOfGun)
    ensures
        forall|i: int|
            0 <= i < of_type(guns, type_of).len() ==> (#[trigger] of_type(guns, type_of)[i]).type_of
                == type_of && guns.contains(of_type(guns, type_of)[i]),
        forall|i: int|
            0 <= i < guns.len() && (#[trigger] guns[i]).type_of == type_of ==> of_type(
                guns,
                type_of,
            ).contains(guns[i]),
{
    let wanted = |gun: GunView| gun.type_of == type_of;
    let list = of_type(guns, type_of);
    assert forall|i: int| 0 <= i < list.len() implies (#[trigger] list[i]).type_of == type_of
        && guns.contains(list[i]) by {
        guns.lemma_filter_pred(wanted, i);
        guns.lemma_filter_contains_rev(wanted, list[i]);
    }
    assert forall|i: int| 0 <= i < guns.len() && (#[trigger] guns[i]).type_of
        == type_of implies list.contains(guns[i]) by {
        guns.lemma_filter_contains(wanted, i);
    }
}

/// A gun that is added goes to the end of the list of its own category and
/// leaves the list of every other category as it was: each list holds exactly
/// the guns of its category, in the order they were added.
pub proof fn lemma_of_type_follows_additions(guns: Seq<GunView>, gun: GunView, type_of: TypeOfGun)
    ensures
        of_type(guns.push(gun), type_of) == if gun.type_of == type_of {
            of_type(guns, type_of).push(gun)
        } else {
            of_type(guns, type_of)
        },
{
    assert(guns.push(gun).drop_last() == guns);
    reveal(Seq::filter);
}

} // verus!
