//! What the window shows and what it starts, as a function of the messages
//! that reach it.
//!
//! Work that takes time runs elsewhere. [`App::update`] only says which work
//! to start; each [`Command`] names the message that is sent back once that
//! work is done, so that the results of one operation arrive in the order in
//! which they were produced. A failure is kept to be shown and starts
//! nothing: what failed is tried again only when the user asks for it.

use vstd::prelude::*;
use crate::catalog::Game;
use crate::drives::Drive;
use crate::error::Error;

verus! {

/// What is shown while work is under way.
#[derive(Debug, Clone, PartialEq, Eq)]
pub enum Notice {
    DownloadingTool,
    /// The file dialog is open.
    AddingGames,
    /// The game `current` of `total` is being copied; the first is 1.
    AddingGame { current: usize, total: usize },
}

#[derive(Debug, Clone, PartialEq, Eq)]
pub enum Screen {
    DriveSelection,
    Games(Drive),
    Progress(Notice),
}

#[derive(Debug, Clone, PartialEq, Eq)]
pub struct App {
    pub view: Screen,
    pub drives: Vec<Drive>,
    pub selected_drive: Option<Drive>,
    /// The catalog of the selected drive, as it was last listed.
    pub games: Vec<Game>,
    /// The failure of the last operation, to be shown until the user starts
    /// the next one.
    pub failure: Option<Error>,
}

#[derive(Debug, Clone, PartialEq, Eq)]
pub enum Message {
    DriveSelected(Drive),
    OpenDrive,
    /// Whether the tool is on the selected drive.
    ToolProbed(bool),
    /// The tool was put on the selected drive and is there.
    Provisioned,
    /// The tool could not be put on the selected drive.
    ProvisioningFailed(Error),
    /// The catalog of the selected drive.
    GamesListed(Vec<Game>),
    /// The catalog of the selected drive could not be listed.
    ListingFailed(Error),
    AddGames,
    /// The files of a batch, and how many of them have been added.
    AddingGames(Vec<String>, usize),
    /// The game that one file of a batch became, the files of the batch, and
    /// how many of them have been added.
    GameAdded(Game, Vec<String>, usize),
    /// One file of a batch could not be added.
    AddingFailed(Error),
    DeleteGame(Game),
    /// The removal is over: the game is gone, or the user declined.
    GameRemoved,
    /// The game could not be removed.
    RemovalFailed(Error),
}

impl Message {
    /// The message that reports how putting the tool on the drive ended.
    pub fn provisioned(outcome: Result<(), Error>) -> (message: Message)
        ensures
            message == match outcome {
                Ok(_) => Message::Provisioned,
                Err(error) => Message::ProvisioningFailed(error),
            },
    {
        match outcome {
            Ok(_) => Message::Provisioned,
            Err(error) => Message::ProvisioningFailed(error),
        }
    }

    /// The message that reports how listing the catalog ended.
    pub fn games_listed(outcome: Result<Vec<Game>, Error>) -> (message: Message)
        ensures
            message == match outcome {
                Ok(games) => Message::GamesListed(games),
                Err(error) => Message::ListingFailed(error),
            },
    {
        match outcome {
            Ok(games) => Message::GamesListed(games),
            Err(error) => Message::ListingFailed(error),
        }
    }

    /// The message that reports how adding one file of a batch ended, where
    /// `done` files of `games` have been added if this one was.
    pub fn game_added(outcome: Result<Game, Error>, games: Vec<String>, done: usize) -> (message:
        Message)
        ensures
            message == match outcome {
                Ok(game) => Message::GameAdded(game, games, done),
                Err(error) => Message::AddingFailed(error),
            },
    {
        match outcome {
            Ok(game) => Message::GameAdded(game, games, done),
            Err(error) => Message::AddingFailed(error),
        }
    }

    /// The message that reports how a removal ended.
    pub fn game_removed(outcome: Result<(), Error>) -> (message: Message)
        ensures
            message == match outcome {
                Ok(_) => Message::GameRemoved,
                Err(error) => Message::RemovalFailed(error),
            },
    {
        match outcome {
            Ok(_) => Message::GameRemoved,
            Err(error) => Message::RemovalFailed(error),
        }
    }
}

/// The work to start after a message.
#[derive(Debug, Clone, PartialEq, Eq)]
pub enum Command {
    Idle,
    /// Look whether the tool is on the selected drive, then send
    /// `Message::ToolProbed`.
    ProbeTool,
    /// Put the tool on the selected drive, then send `Message::Provisioned`
    /// or `Message::ProvisioningFailed`.
    ProvisionTool,
    /// List the catalog of the selected drive, then send
    /// `Message::GamesListed` or `Message::ListingFailed`.
    ListGames,
    /// Let the user pick files, then send `Message::AddingGames` with the
    /// files and 0.
    SelectGames,
    /// Add `source` to the selected drive, then send `Message::GameAdded`
    /// with the game, `games` and `done`, or `Message::AddingFailed`.
    AddGame { source: String, games: Vec<String>, done: usize },
    /// Ask the user and remove the game, then send `Message::GameRemoved`
    /// or `Message::RemovalFailed`.
    RemoveGame(Game),
}

impl App {
    /// The window at its start: the first drive, if there is one, is
    /// selected.
    pub fn new(drives: Vec<Drive>) -> (app: App)
        ensures
            app.view == Screen::DriveSelection,
            app.drives == drives,
            app.selected_drive == if drives.len() > 0 {
                Some(drives[0])
            } else {
                None
            },
            app.games@ == Seq::<Game>::empty(),
            app.failure is None,
    {
        let selected_drive = if drives.len() > 0 {
            Some(duplicate(&drives[0]))
        } else {
            None
        };
        App {
            view: Screen::DriveSelection,
            drives,
            selected_drive,
            games: Vec::new(),
            failure: None,
        }
    }

    /// How a batch goes on once `done` of its files have been dealt with:
    /// with the next file, or with a fresh listing when none is left.
    pub open spec fn spec_continue_batch(self, games: Vec<String>, done: usize) -> (App, Command) {
        if done >= games.len() {
            (self, Command::ListGames)
        } else {
            (
                App {
                    view: Screen::Progress(
                        Notice::AddingGame { current: (done + 1) as usize, total: games.len() },
                    ),
                    ..self
                },
                Command::AddGame { source: games[done as int], games, done: (done + 1) as usize },
            )
        }
    }

    /// What a failure does to the window: it is kept to be shown.
    pub open spec fn spec_failed(self, error: Error) -> App {
        App { failure: Some(error), ..self }
    }

    /// The window and the work to start after `message`. Without a selected
    /// drive, a message that concerns the drive changes nothing.
    pub open spec fn spec_update(self, message: Message) -> (App, Command) {
        match message {
            Message::DriveSelected(drive) => (
                App { selected_drive: Some(drive), ..self },
                Command::Idle,
            ),
            Message::AddGames => (
                App { view: Screen::Progress(Notice::AddingGames), failure: None, ..self },
                Command::SelectGames,
            ),
            _ => match self.selected_drive {
                None => (self, Command::Idle),
                Some(drive) => match message {
                    Message::OpenDrive => (App { failure: None, ..self }, Command::ProbeTool),
                    Message::ToolProbed(present) => if present {
                        (self, Command::ListGames)
                    } else {
                        (
                            App { view: Screen::Progress(Notice::DownloadingTool), ..self },
                            Command::ProvisionTool,
                        )
                    },
                    Message::Provisioned => (self, Command::ListGames),
                    Message::ProvisioningFailed(error) => (
                        App { view: Screen::DriveSelection, ..self.spec_failed(error) },
                        Command::Idle,
                    ),
                    Message::GamesListed(games) => (
                        App { view: Screen::Games(drive), games, ..self },
                        Command::Idle,
                    ),
                    Message::ListingFailed(error) => (
                        App { view: Screen::DriveSelection, ..self.spec_failed(error) },
                        Command::Idle,
                    ),
                    Message::AddingGames(games, done) => self.spec_continue_batch(games, done),
                    Message::GameAdded(_, games, done) => self.spec_continue_batch(games, done),
                    Message::AddingFailed(error) => (self.spec_failed(error), Command::ListGames),
                    Message::DeleteGame(game) => (
                        App { failure: None, ..self },
                        Command::RemoveGame(game),
                    ),
                    Message::GameRemoved => (self, Command::ListGames),
                    Message::RemovalFailed(error) => (self.spec_failed(error), Command::Idle),
                    _ => (self, Command::Idle),
                },
            },
        }
    }

    fn continue_batch(&mut self, games: Vec<String>, done: usize) -> (command: Command)
        ensures
            (*final(self), command) == old(self).spec_continue_batch(games, done),
    {
        let total = games.len();
        if done >= total {
            Command::ListGames
        } else {
            self.view = Screen::Progress(Notice::AddingGame { current: done + 1, total });
            let source = games[done].clone();
            Command::AddGame { source, games, done: done + 1 }
        }
    }

    /// Takes `message` in and says which work to start.
    pub fn update(&mut self, message: Message) -> (command: Command)
        ensures
            (*final(self), command) == old(self).spec_update(message),
    {
        match message {
            Message::DriveSelected(drive) => {
                self.selected_drive = Some(drive);
                return Command::Idle;
            },
            Message::AddGames => {
                self.view = Screen::Progress(Notice::AddingGames);
                self.failure = None;
                return Command::SelectGames;
            },
            _ => {},
        }
        let drive = match &self.selected_drive {
            Some(drive) => duplicate(drive),
            None => {
                return Command::Idle;
            },
        };
        match message {
            Message::OpenDrive => {
                self.failure = None;
                Command::ProbeTool
            },
            Message::ToolProbed(present) => {
                if present {
                    Command::ListGames
                } else {
                    self.view = Screen::Progress(Notice::DownloadingTool);
                    Command::ProvisionTool
                }
            },
            Message::Provisioned => Command::ListGames,
            Message::ProvisioningFailed(error) => {
                self.view = Screen::DriveSelection;
                self.failure = Some(error);
                Command::Idle
            },
            Message::GamesListed(games) => {
                self.view = Screen::Games(drive);
                self.games = games;
                Command::Idle
            },
            Message::ListingFailed(error) => {
                self.view = Screen::DriveSelection;
                self.failure = Some(error);
                Command::Idle
            },
            Message::AddingGames(games, done) => self.continue_batch(games, done),
            Message::GameAdded(_, games, done) => self.continue_batch(games, done),
            Message::AddingFailed(error) => {
                self.failure = Some(error);
                Command::ListGames
            },
            Message::DeleteGame(game) => {
                self.failure = None;
                Command::RemoveGame(game)
            },
            Message::GameRemoved => Command::ListGames,
            Message::RemovalFailed(error) => {
                self.failure = Some(error);
                Command::Idle
            },
            _ => Command::Idle,
        }
    }
}

/// A failed provisioning is shown and starts nothing: the window goes back
/// to the choice of a drive with the failure kept, and no work is asked for.
pub proof fn lemma_failed_provisioning_is_shown(app: App, error: Error)
    requires
        app.selected_drive is Some,
    ensures
        app.spec_update(Message::ProvisioningFailed(error)).1 == Command::Idle,
        app.spec_update(Message::ProvisioningFailed(error)).0.failure == Some(error),
        app.spec_update(Message::ProvisioningFailed(error)).0.view == Screen::DriveSelection,
{
}

/// No outcome of work starts the work again. The tool is fetched only in
/// answer to a probe that found it absent, and it is probed for only when
/// the user opens a drive; a game is copied only as the next of its batch
/// after one that went well, and removed only when the user asks for it.
pub proof fn lemma_nothing_is_retried(app: App, message: Message)
    ensures
        app.spec_update(message).1 == Command::ProvisionTool ==> message == Message::ToolProbed(
            false,
        ),
        app.spec_update(message).1 == Command::ProbeTool ==> message == Message::OpenDrive,
        app.spec_update(message).1 is AddGame ==> message is AddingGames || message is GameAdded,
        app.spec_update(message).1 is RemoveGame ==> message is DeleteGame,
        app.spec_update(message).1 == Command::SelectGames ==> message == Message::AddGames,
{
}

/// Every failure that reaches the window with a drive selected is kept to
/// be shown.
pub proof fn lemma_failures_are_kept(app: App, error: Error)
    requires
        app.selected_drive is Some,
    ensures
        app.spec_update(Message::ProvisioningFailed(error)).0.failure == Some(error),
        app.spec_update(Message::ListingFailed(error)).0.failure == Some(error),
        app.spec_update(Message::AddingFailed(error)).0.failure == Some(error),
        app.spec_update(Message::RemovalFailed(error)).0.failure == Some(error),
{
}

fn duplicate(drive: &Drive) -> (copy: Drive)
    ensures
        copy == *drive,
{
    Drive {
        name: drive.name.clone(),
        total_space: drive.total_space,
        available_space: drive.available_space,
        mount_point: drive.mount_point.clone(),
    }
}

} // verus!
