//! The command state machine behind the two-pane terminal interface: which
//! command is active, what the log holds, and how rendered frames and input
//! move the machine from one command to the next.

pub mod command_none_handler;

use crate::tui::command_none_handler::{fresh_menu, menu_step, CommandNoneHandler, MenuView};
use ratatui::layout::{Constraint, Direction, Layout, Rect};
use vstd::prelude::*;

verus! {

/// A key of the keyboard, as far as the interface tells keys apart.
#[derive(Clone, Copy, Debug, PartialEq, Eq, Structural)]
pub enum Key {
    Up,
    Down,
    Enter,
    Esc,
    Char(char),
    Other,
}

/// What a command's handler asks of the state machine after an input.
#[derive(Debug, PartialEq, Eq)]
pub enum GameEvent {
    /// Go back to the idle command.
    Back,
    /// Make the command of this name the active one.
    ChangeState(String),
    /// Stay with the active command.
    Stay,
}

/// A handler's request, as a mathematical value.
pub enum EventView {
    Back,
    ChangeState(Seq<char>),
    Stay,
}

impl View for GameEvent {
    type V = EventView;

    open spec fn view(&self) -> EventView {
        match *self {
            GameEvent::Back => EventView::Back,
            GameEvent::ChangeState(name) => EventView::ChangeState(name@),
            GameEvent::Stay => EventView::Stay,
        }
    }
}

/// The command that is active.
#[derive(Debug, PartialEq, Eq)]
pub enum GameCommand {
    AddUser,
    GetMoney,
    GetHealth,
    Tap,
    Buy,
    ScoreBoard,
    /// The idle command, with its menu.
    Idle(CommandNoneHandler),
}

/// The active command, as a mathematical value.
pub enum CommandView {
    AddUser,
    GetMoney,
    GetHealth,
    Tap,
    Buy,
    ScoreBoard,
    Idle(MenuView),
}

impl View for GameCommand {
    type V = CommandView;

    open spec fn view(&self) -> CommandView {
        match *self {
            GameCommand::AddUser => CommandView::AddUser,
            GameCommand::GetMoney => CommandView::GetMoney,
            GameCommand::GetHealth => CommandView::GetHealth,
            GameCommand::Tap => CommandView::Tap,
            GameCommand::Buy => CommandView::Buy,
            GameCommand::ScoreBoard => CommandView::ScoreBoard,
            GameCommand::Idle(handler) => CommandView::Idle(handler@),
        }
    }
}

/// The names of the commands that the menu offers, in the menu's order.
pub open spec fn command_names() -> Seq<Seq<char>> {
    seq!["add-user"@, "get-money"@, "get-health"@, "tap"@, "buy"@, "score-board"@]
}

/// The command that a name stands for, freshly started. Besides the names of
/// the menu, `none` names the idle command; no other name names a command.
pub open spec fn command_named(name: Seq<char>) -> Option<CommandView> {
    if name == "add-user"@ {
        Some(CommandView::AddUser)
    } else if name == "get-money"@ {
        Some(CommandView::GetMoney)
    } else if name == "get-health"@ {
        Some(CommandView::GetHealth)
    } else if name == "tap"@ {
        Some(CommandView::Tap)
    } else if name == "buy"@ {
        Some(CommandView::Buy)
    } else if name == "score-board"@ {
        Some(CommandView::ScoreBoard)
    } else if name == "none"@ {
        Some(CommandView::Idle(fresh_menu()))
    } else {
        None
    }
}

impl GameCommand {
    /// The names of the commands that the menu offers, in the menu's order.
    pub fn get_commands_name() -> (names: Vec<&'static str>)
        ensures
            names@.len() == command_names().len(),
            forall|i: int| 0 <= i < names@.len() ==> (#[trigger] names@[i])@ == command_names()[i],
    {
        let mut names: Vec<&'static str> = Vec::new();
        names.push("add-user");
        names.push("get-money");
        names.push("get-health");
        names.push("tap");
        names.push("buy");
        names.push("score-board");
        names
    }

    /// The command that `name` stands for, freshly started, if it names one.
    pub fn from_name(name: &str) -> (command: Option<GameCommand>)
        ensures
            match command_named(name@) {
                Some(view) => command matches Some(c) && c@ == view,
                None => command is None,
            },
    {
        let name = name.to_owned();
        if name == "add-user".to_owned() {
            Some(GameCommand::AddUser)
        } else if name == "get-money".to_owned() {
            Some(GameCommand::GetMoney)
        } else if name == "get-health".to_owned() {
            Some(GameCommand::GetHealth)
        } else if name == "tap".to_owned() {
            Some(GameCommand::Tap)
        } else if name == "buy".to_owned() {
            Some(GameCommand::Buy)
        } else if name == "score-board".to_owned() {
            Some(GameCommand::ScoreBoard)
        } else if name == "none".to_owned() {
            Some(GameCommand::Idle(CommandNoneHandler::default()))
        } else {
            None
        }
    }
}

/// One record of what a command did.
#[derive(Debug, PartialEq, Eq)]
pub enum Log {
    /// The command succeeded.
    Result(String),
    /// The command failed.
    Error(String),
}

/// A log record, as a mathematical value.
pub enum LogView {
    Result(Seq<char>),
    Error(Seq<char>),
}

impl View for Log {
    type V = LogView;

    open spec fn view(&self) -> LogView {
        match *self {
            Log::Result(text) => LogView::Result(text@),
            Log::Error(text) => LogView::Error(text@),
        }
    }
}

/// How a line of the log pane is to be shown.
#[derive(Clone, Copy, Debug, PartialEq, Eq, Structural)]
pub enum Tone {
    /// A command's success.
    Success,
    /// A command's failure.
    Failure,
    /// No emphasis: the line that stands in for an empty log.
    Plain,
}

/// One line of the log pane.
#[derive(Debug, PartialEq, Eq)]
pub struct LogLine {
    pub text: String,
    pub tone: Tone,
}

/// A line of the log pane, as a mathematical value.
pub struct LogLineView {
    pub text: Seq<char>,
    pub tone: Tone,
}

impl View for LogLine {
    type V = LogLineView;

    open spec fn view(&self) -> LogLineView {
        LogLineView { text: self.text@, tone: self.tone }
    }
}

/// The line that shows one log record.
pub open spec fn line_of(log: LogView) -> LogLineView {
    match log {
        LogView::Result(text) => LogLineView { text, tone: Tone::Success },
        LogView::Error(text) => LogLineView { text, tone: Tone::Failure },
    }
}

/// The lines of the log pane: one per record, oldest first. An empty log is
/// shown as a single blank line, so that the pane is never without a line.
pub open spec fn log_pane(logs: Seq<LogView>) -> Seq<LogLineView> {
    if logs.len() == 0 {
        seq![LogLineView { text: Seq::empty(), tone: Tone::Plain }]
    } else {
        logs.map_values(|log: LogView| line_of(log))
    }
}

/// The records behind a list of logs.
spec fn logs_view(logs: Seq<Log>) -> Seq<LogView> {
    logs.map_values(|log: Log| log@)
}

/// A rectangle of the terminal, in cells.
#[derive(Clone, Copy, Debug, PartialEq, Eq, Structural)]
pub struct Pane {
    pub x: u16,
    pub y: u16,
    pub width: u16,
    pub height: u16,
}

/// The column just right of `area`: its right edge, which stops at the last
/// column that a terminal can have.
pub open spec fn right_edge(area: Pane) -> int {
    if area.x + area.width > u16::MAX {
        u16::MAX as int
    } else {
        area.x + area.width
    }
}

/// `column` has the rows of `area` and lies between its left and right edges.
pub open spec fn column_of(area: Pane, column: Pane) -> bool {
    &&& column.y == area.y
    &&& column.height == area.height
    &&& area.x <= column.x
    &&& column.x + column.width <= right_edge(area)
}

/// `left` and `right` are the two halves of `area`: columns of `area` that lie
/// side by side and cover it from its left edge to its right edge, each as wide
/// as half of it, to within one cell.
pub open spec fn halves_of(area: Pane, left: Pane, right: Pane) -> bool {
    &&& column_of(area, left)
    &&& column_of(area, right)
    &&& left.x == area.x
    &&& right.x == left.x + left.width
    &&& right.x + right.width == right_edge(area)
    &&& -1 <= 2 * left.width - (right_edge(area) - area.x) <= 1
    &&& -1 <= 2 * right.width - (right_edge(area) - area.x) <= 1
}

/// Splits `area` into two columns with `ratatui::layout::Layout::split`, on a
/// horizontal layout of two percentage constraints, with no margin and no
/// spacing.
///
/// Not proved here, but read from ratatui 0.29:
/// - a layout gives one rectangle for each of its constraints, and a
///   horizontal one gives each of them the rows of the area that it splits;
/// - the solver is required to keep every edge between the area's left edge
///   and its right edge, which stops at `u16::MAX`, and the start of a
///   rectangle at or before its end;
/// - a percentage gives a rectangle that share of the area, rounded to whole
///   cells, and with the default flex the rectangles start at the area's left
///   edge and follow one another without a gap. This is claimed for two
///   shares of 50 only, which leave nothing of the area over and do not
///   compete: ratatui's own tests split 100 columns into 50 and 50.
/// Which way half a cell is rounded is not claimed.
#[verifier::external_body]
fn split_columns(area: Pane, left_percent: u16, right_percent: u16) -> (columns: Vec<Pane>)
    ensures
        columns@.len() == 2,
        forall|i: int| 0 <= i < 2 ==> column_of(area, #[trigger] columns@[i]),
        left_percent == 50 && right_percent == 50 ==> halves_of(area, columns@[0], columns@[1]),
{
    let area = Rect { x: area.x, y: area.y, width: area.width, height: area.height };
    let constraints =
        [Constraint::Percentage(left_percent), Constraint::Percentage(right_percent)];
    let layout = Layout::default().direction(Direction::Horizontal).constraints(constraints);
    layout.split(area).iter().map(
        |rect| Pane { x: rect.x, y: rect.y, width: rect.width, height: rect.height },
    ).collect()
}

/// The two panes of a frame that covers `area`: the work pane is its left
/// half and the log pane its right half.
pub fn panes(area: Pane) -> (panes: (Pane, Pane))
    ensures
        halves_of(area, panes.0, panes.1),
{
    let columns = split_columns(area, 50, 50);
    (columns[0], columns[1])
}

/// The name in a requested transition names no command. The closed list of
/// command names is broken: unlike the errors of the catalog, this one cannot
/// be recovered from, and the game must stop.
#[derive(Debug, PartialEq, Eq)]
pub struct UnrecognizedCommandName {
    pub name: String,
}

/// The command that is active after a handler's request, or nothing where the
/// request names no command.
pub open spec fn after_event(state: CommandView, event: EventView) -> Option<CommandView> {
    match event {
        EventView::Back => Some(CommandView::Idle(fresh_menu())),
        EventView::ChangeState(name) => command_named(name),
        EventView::Stay => Some(state),
    }
}

/// The state machine, as a mathematical value.
pub struct AppView {
    pub exit: bool,
    pub logs: Seq<LogView>,
    pub state: CommandView,
}

/// The machine after the active command has rendered a frame. A command that
/// reports a log record is done: the record goes to the end of the log and the
/// idle command takes over. Otherwise nothing changes.
pub open spec fn after_render(app: AppView, outcome: Option<LogView>) -> AppView {
    match outcome {
        Some(log) => AppView {
            exit: app.exit,
            logs: app.logs.push(log),
            state: CommandView::Idle(fresh_menu()),
        },
        None => app,
    }
}

/// The machine after a key has come in. While the idle command is active the
/// menu interprets the key: an exit that it asks for is noted, and the
/// transition that it asks for is made. While another command is active the
/// key is not the machine's to interpret, and nothing changes.
pub open spec fn after_key(app: AppView, key: Key) -> AppView {
    match app.state {
        CommandView::Idle(menu) => {
            let (menu, event) = menu_step(menu, key);
            AppView {
                exit: app.exit || menu.exit,
                logs: app.logs,
                state: match after_event(CommandView::Idle(menu), event) {
                    Some(state) => state,
                    None => CommandView::Idle(menu),
                },
            }
        },
        _ => app,
    }
}

/// The state machine of the interface.
pub struct App {
    exit: bool,
    logs: Vec<Log>,
    state: GameCommand,
}

impl View for App {
    type V = AppView;

    closed spec fn view(&self) -> AppView {
        AppView { exit: self.exit, logs: logs_view(self.logs@), state: self.state@ }
    }
}

impl App {
    /// The machine at the start: idle, with an empty log, not exiting.
    pub fn new() -> (app: App)
        ensures
            app@ == (AppView {
                exit: false,
                logs: Seq::empty(),
                state: CommandView::Idle(fresh_menu()),
            }),
    {
        let app = App {
            exit: false,
            logs: Vec::new(),
            state: GameCommand::Idle(CommandNoneHandler::default()),
        };
        assert(logs_view(app.logs@) =~= Seq::empty());
        app
    }

    /// Whether the game is to stop.
    pub fn exit(&self) -> (exit: bool)
        ensures
            exit == self@.exit,
    {
        self.exit
    }

    /// The log, oldest record first.
    pub fn logs(&self) -> (logs: &Vec<Log>)
        ensures
            logs@.len() == self@.logs.len(),
            forall|i: int| 0 <= i < logs@.len() ==> (#[trigger] logs@[i])@ == self@.logs[i],
    {
        &self.logs
    }

    /// The active command.
    pub fn state(&self) -> (state: &GameCommand)
        ensures
            state@ == self@.state,
    {
        &self.state
    }

    /// The lines of the log pane.
    pub fn show_log(&self) -> (lines: Vec<LogLine>)
        ensures
            lines@.len() == log_pane(self@.logs).len(),
            forall|i: int|
                0 <= i < lines@.len() ==> (#[trigger] lines@[i])@ == log_pane(self@.logs)[i],
    {
        let mut lines: Vec<LogLine> = Vec::new();
        let mut i: usize = 0;
        while i < self.logs.len()
            invariant
                i <= self.logs.len(),
                lines@.len() == i,
                forall|j: int| 0 <= j < i ==> (#[trigger] lines@[j])@ == line_of(self.logs@[j]@),
            decreases self.logs.len() - i,
        {
            let line = match &self.logs[i] {
                Log::Result(text) => LogLine { text: text.clone(), tone: Tone::Success },
                Log::Error(text) => LogLine { text: text.clone(), tone: Tone::Failure },
            };
            lines.push(line);
            i += 1;
        }
        if lines.len() == 0 {
            lines.push(LogLine { text: String::new(), tone: Tone::Plain });
        }
        lines
    }

    /// Takes in what the active command reported when it rendered a frame.
    pub fn show_work(&mut self, outcome: Option<Log>)
        ensures
            final(self)@ == after_render(
                old(self)@,
                match outcome {
                    Some(log) => Some(log@),
                    None => None,
                },
            ),
    {
        if let Some(log) = outcome {
            self.logs.push(log);
            self.state = GameCommand::Idle(CommandNoneHandler::default());
            assert(logs_view(self.logs@) =~= logs_view(old(self).logs@).push(log@));
        }
    }

    /// Makes the transition that a handler asked for. The name in a request
    /// must name a command: a caller that cannot know it asks
    /// `try_game_event_handler`.
    pub fn game_event_handler(&mut self, event: GameEvent)
        requires
            event@ matches EventView::ChangeState(name) ==> command_named(name) is Some,
        ensures
            final(self)@ == (AppView {
                state: after_event(old(self)@.state, event@)->Some_0,
                ..old(self)@
            }),
    {
        match event {
            GameEvent::Back => {
                self.state = GameCommand::Idle(CommandNoneHandler::default());
            },
            GameEvent::ChangeState(name) => {
                match GameCommand::from_name(name.as_str()) {
                    Some(state) => {
                        self.state = state;
                    },
                    None => unreached(),
                }
            },
            GameEvent::Stay => {},
        }
    }

    /// Makes the transition that a handler asked for, if it can be made. A
    /// request that names no command is refused with the name, and changes
    /// nothing: the caller is to stop the game.
    pub fn try_game_event_handler(&mut self, event: GameEvent) -> (result: Result<
        (),
        UnrecognizedCommandName,
    >)
        ensures
            match after_event(old(self)@.state, event@) {
                Some(state) => result is Ok && final(self)@ == (AppView {
                    state,
                    ..old(self)@
                }),
                None => {
                    &&& final(self)@ == old(self)@
                    &&& result matches Err(error)
                    &&& event@ == EventView::ChangeState(error.name@)
                },
            },
    {
        match event {
            GameEvent::Back => {
                self.game_event_handler(GameEvent::Back);
                Ok(())
            },
            GameEvent::ChangeState(name) => {
                if GameCommand::from_name(name.as_str()).is_some() {
                    self.game_event_handler(GameEvent::ChangeState(name));
                    Ok(())
                } else {
                    Err(UnrecognizedCommandName { name })
                }
            },
            GameEvent::Stay => {
                self.game_event_handler(GameEvent::Stay);
                Ok(())
            },
        }
    }

    /// Takes in one key, and says whether the key was the machine's to
    /// interpret: it is while the idle command is active. While another
    /// command is active the key belongs to that command's handler.
    pub fn handle_events(&mut self, key: Key) -> (handled: bool)
        ensures
            handled == (old(self)@.state is Idle),
            final(self)@ == after_key(old(self)@, key),
    {
        match &mut self.state {
            GameCommand::Idle(handler) => {
                let event = handler.event_handler(key);
                if handler.wants_exit() {
                    self.exit = true;
                }
                proof {
                    lemma_menu_names_are_commands();
                }
                self.game_event_handler(event);
                true
            },
            _ => false,
        }
    }
}

/// Every name that the menu offers names a command of its own, and none of
/// them names the idle command.
pub proof fn lemma_menu_names_are_commands()
    ensures
        command_named(command_names()[0]) == Some(CommandView::AddUser),
        command_named(command_names()[1]) == Some(CommandView::GetMoney),
        command_named(command_names()[2]) == Some(CommandView::GetHealth),
        command_named(command_names()[3]) == Some(CommandView::Tap),
        command_named(command_names()[4]) == Some(CommandView::Buy),
        command_named(command_names()[5]) == Some(CommandView::ScoreBoard),
{
    reveal_strlit("add-user");
    reveal_strlit("get-money");
    reveal_strlit("get-health");
    reveal_strlit("tap");
    reveal_strlit("buy");
    reveal_strlit("score-board");
    assert("add-user"@.len() == 8 && "get-money"@.len() == 9 && "get-health"@.len() == 10);
    assert("tap"@.len() == 3 && "buy"@.len() == 3 && "score-board"@.len() == 11);
    assert("buy"@[0] != "tap"@[0]);
}

/// The names that name a command are the names of the menu and `none`: the
/// list is closed.
pub proof fn lemma_command_names_are_closed(name: Seq<char>)
    ensures
        command_named(name) is Some <==> command_names().contains(name) || name == "none"@,
{
    let names = command_names();
    if command_named(name) is Some && name != "none"@ {
        let i: int = if name == names[0] {
            0
        } else if name == names[1] {
            1
        } else if name == names[2] {
            2
        } else if name == names[3] {
            3
        } else if name == names[4] {
            4
        } else {
            5
        };
        assert(names[i] == name);
    }
    if names.contains(name) {
        let i = choose|i: int| 0 <= i < names.len() && names[i] == name;
        assert(names[i] == name);
    }
}

/// Whatever key the menu is given, the transition that it asks for can be
/// made: the menu never names a command that does not exist.
pub proof fn lemma_menu_asks_for_commands(menu: MenuView, key: Key)
    requires
        0 <= menu.selected < command_names().len(),
    ensures
        after_event(CommandView::Idle(menu_step(menu, key).0), menu_step(menu, key).1) is Some,
{
    lemma_menu_names_are_commands();
}

/// A command that is started by name and then reports a record leaves exactly
/// that one record more in the log, and the idle command active; whether the
/// game is to stop is not touched.
pub proof fn lemma_finished_command_returns_to_idle(app: AppView, name: Seq<char>, log: LogView)
    requires
        command_named(name) is Some,
    ensures
        ({
            let started = AppView {
                state: after_event(app.state, EventView::ChangeState(name))->Some_0,
                ..app
            };
            let finished = after_render(started, Some(log));
            &&& started.logs == app.logs
            &&& finished.logs == app.logs.push(log)
            &&& finished.logs.len() == app.logs.len() + 1
            &&& finished.state == CommandView::Idle(fresh_menu())
            &&& finished.exit == app.exit
        }),
{
}

/// The log pane follows the log: the first record takes the place of the
/// blank line, and every later record adds its line below the others.
pub proof fn lemma_log_pane_follows_log(logs: Seq<LogView>, log: LogView)
    ensures
        log_pane(Seq::empty()).len() == 1,
        log_pane(logs.push(log)) == if logs.len() == 0 {
            seq![line_of(log)]
        } else {
            log_pane(logs).push(line_of(log))
        },
        log_pane(logs.push(log)).len() == logs.len() + 1,
{
    assert(log_pane(logs.push(log)) =~= if logs.len() == 0 {
        seq![line_of(log)]
    } else {
        log_pane(logs).push(line_of(log))
    });
}

} // verus!
