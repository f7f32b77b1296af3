//! Recasting a scene: every speaker of a file's roster is replaced by a
//! character drawn at random from a pool, and each line of the scene takes
//! the names drawn for its speaker's place in the roster.
//!
//! The data comes from a remote service. A [`Run`] says which list it needs
//! next and decides, list by list, how the work goes on; fetching the lists
//! is left to the caller.
//!
//! The draws are made with the thread's random generator. What a draw
//! settles is in each case a function of the item drawn, and every stage
//! of a [`Run`] can be written down by hand, so a recasting can be replayed
//! with draws of one's own choosing.

use crate::api::{
    chr_detail_request, chr_detail_url, file_request, file_url, games_request, games_url,
    script_detail_request, script_detail_url, Character, CharacterView, Game, GameView, Metadata,
    MetadataView, Script, ScriptView,
};
use crate::pick::{file_choice, game_choice, pick_file, pick_game};
use crate::recast::{
    draw_substitution, original_roster, original_speakers, recast, rewrite_scene,
    substitution_choice, Replacement, ReplacementView,
};
use vstd::prelude::*;

verus! {

/// Why a scene could not be recast.
#[derive(Clone, Copy, Debug, PartialEq, Eq, Structural)]
pub enum RandomizeError {
    /// No game was configured and the service lists none.
    NoGamesAvailable,
    /// The configured file name is not among the game's files.
    FileNotFound,
    /// No file name was configured and no file of the game has dialogue.
    NoDialogueFiles,
    /// The roster has speakers to replace and the pool has no character.
    EmptyPool,
    /// A line's speaker is not in the roster of its file.
    SpeakerNotInFileRoster,
}

/// How many characters are asked for where no pool was configured.
pub const POOL_PAGE_SIZE: u32 = 500;

/// A list that a [`Run`] needs from the service.
#[derive(Clone, Debug, PartialEq, Eq)]
pub enum Request {
    /// All games.
    Games,
    /// The files of a game.
    Files { game_id: u8 },
    /// The first `page_size` characters of a game, their order and sort key
    /// left to the service.
    Characters { game_id: u8, page_size: u32 },
    /// The lines of a file, in order.
    Scene { game_id: u8, fname: String },
}

/// What a [`Request`] holds.
pub enum RequestView {
    Games,
    Files { game_id: u8 },
    Characters { game_id: u8, page_size: u32 },
    Scene { game_id: u8, fname: Seq<char> },
}

impl View for Request {
    type V = RequestView;

    open spec fn view(&self) -> RequestView {
        match self {
            Request::Games => RequestView::Games,
            Request::Files { game_id } => RequestView::Files { game_id: *game_id },
            Request::Characters { game_id, page_size } => RequestView::Characters {
                game_id: *game_id,
                page_size: *page_size,
            },
            Request::Scene { game_id, fname } => RequestView::Scene {
                game_id: *game_id,
                fname: fname@,
            },
        }
    }
}

/// The request string that fetches a list.
pub open spec fn request_text(request: RequestView) -> Seq<char> {
    match request {
        RequestView::Games => games_request(),
        RequestView::Files { game_id } => file_request(game_id),
        RequestView::Characters { game_id, page_size } => chr_detail_request(
            Some(game_id),
            None,
            None,
            None,
            Some(page_size),
        ),
        RequestView::Scene { game_id, fname } => script_detail_request(game_id, fname),
    }
}

/// A list that the service returned.
#[derive(Clone, Debug, PartialEq, Eq)]
pub enum Reply {
    Games(Vec<Game>),
    Files(Vec<Metadata>),
    Characters(Vec<Character>),
    Scene(Vec<Script>),
}

/// What a [`Reply`] holds.
pub enum ReplyView {
    Games(Seq<GameView>),
    Files(Seq<MetadataView>),
    Characters(Seq<CharacterView>),
    Scene(Seq<ScriptView>),
}

impl View for Reply {
    type V = ReplyView;

    open spec fn view(&self) -> ReplyView {
        match self {
            Reply::Games(games) => ReplyView::Games(games.deep_view()),
            Reply::Files(files) => ReplyView::Files(files.deep_view()),
            Reply::Characters(pool) => ReplyView::Characters(pool.deep_view()),
            Reply::Scene(scene) => ReplyView::Scene(scene.deep_view()),
        }
    }
}

/// A recasting under way: what is settled so far, and so which list comes
/// next.
#[derive(Clone, Debug, PartialEq, Eq)]
pub enum Run {
    /// No game is settled yet.
    AwaitingGames { fname: Option<String>, characters: Option<Vec<Character>> },
    /// The game is settled, the file is not.
    AwaitingFiles { game_id: u8, fname: Option<String>, characters: Option<Vec<Character>> },
    /// The file is settled and no pool was configured.
    AwaitingCharacters { game_id: u8, file: Metadata },
    /// The replacements are drawn; only the scene is missing.
    AwaitingScene { game_id: u8, fname: String, substitution: Vec<Replacement> },
}

/// What a [`Run`] holds.
pub enum RunView {
    AwaitingGames { fname: Option<Seq<char>>, characters: Option<Seq<CharacterView>> },
    AwaitingFiles {
        game_id: u8,
        fname: Option<Seq<char>>,
        characters: Option<Seq<CharacterView>>,
    },
    AwaitingCharacters { game_id: u8, file: MetadataView },
    AwaitingScene { game_id: u8, fname: Seq<char>, substitution: Seq<ReplacementView> },
}

impl View for Run {
    type V = RunView;

    open spec fn view(&self) -> RunView {
        match self {
            Run::AwaitingGames { fname, characters } => RunView::AwaitingGames {
                fname: fname.deep_view(),
                characters: characters.deep_view(),
            },
            Run::AwaitingFiles { game_id, fname, characters } => RunView::AwaitingFiles {
                game_id: *game_id,
                fname: fname.deep_view(),
                characters: characters.deep_view(),
            },
            Run::AwaitingCharacters { game_id, file } => RunView::AwaitingCharacters {
                game_id: *game_id,
                file: file@,
            },
            Run::AwaitingScene { game_id, fname, substitution } => RunView::AwaitingScene {
                game_id: *game_id,
                fname: fname@,
                substitution: substitution.deep_view(),
            },
        }
    }
}

/// What a [`Run`] comes to when it is given a list.
#[derive(Clone, Debug, PartialEq, Eq)]
pub enum Outcome {
    /// More is needed: the run goes on from here.
    Continue(Run),
    /// The recast scene.
    Done(Vec<Script>),
    /// The recasting failed for good.
    Failed(RandomizeError),
}

/// What an [`Outcome`] holds.
pub enum OutcomeView {
    Continue(RunView),
    Done(Seq<ScriptView>),
    Failed(RandomizeError),
}

impl View for Outcome {
    type V = OutcomeView;

    open spec fn view(&self) -> OutcomeView {
        match self {
            Outcome::Continue(run) => OutcomeView::Continue(run@),
            Outcome::Done(scene) => OutcomeView::Done(scene.deep_view()),
            Outcome::Failed(error) => OutcomeView::Failed(*error),
        }
    }
}

/// The list that a run needs next.
pub open spec fn pending(run: RunView) -> RequestView {
    match run {
        RunView::AwaitingGames { .. } => RequestView::Games,
        RunView::AwaitingFiles { game_id, .. } => RequestView::Files { game_id },
        RunView::AwaitingCharacters { game_id, .. } => RequestView::Characters {
            game_id,
            page_size: POOL_PAGE_SIZE,
        },
        RunView::AwaitingScene { game_id, fname, .. } => RequestView::Scene { game_id, fname },
    }
}

/// What a run may come to once its file is settled and a pool is at hand:
/// it goes on to await the scene, with a substitution for the file's
/// roster out of the pool, or it fails for want of characters.
pub open spec fn cast_step(
    game_id: u8,
    file: MetadataView,
    pool: Seq<CharacterView>,
    out: OutcomeView,
) -> bool {
    match out {
        OutcomeView::Continue(RunView::AwaitingScene { game_id: g, fname, substitution }) => {
            &&& g == game_id
            &&& fname == file.fname
            &&& substitution_choice(original_speakers(file), pool, Ok(substitution))
        },
        OutcomeView::Failed(error) => substitution_choice(
            original_speakers(file),
            pool,
            Err(error),
        ),
        _ => false,
    }
}

/// What a run may come to once its file is settled: with a configured pool
/// the replacements are drawn at once, without one the run awaits the
/// game's characters.
pub open spec fn file_step(
    game_id: u8,
    file: MetadataView,
    characters: Option<Seq<CharacterView>>,
    out: OutcomeView,
) -> bool {
    match characters {
        Some(pool) => cast_step(game_id, file, pool, out),
        None => out == OutcomeView::Continue(RunView::AwaitingCharacters { game_id, file }),
    }
}

/// What a run may come to when it is given the files of its game: a file
/// is picked and the run goes on from it, or no file can be picked and the
/// run fails.
pub open spec fn files_step(
    game_id: u8,
    fname: Option<Seq<char>>,
    characters: Option<Seq<CharacterView>>,
    files: Seq<MetadataView>,
    out: OutcomeView,
) -> bool {
    ||| (exists|i: usize|
        #![trigger file_choice(files, fname, Ok(i))]
        file_choice(files, fname, Ok(i)) && file_step(game_id, files[i as int], characters, out))
    ||| (out matches OutcomeView::Failed(error) && file_choice(files, fname, Err(error)))
}

/// What a run may come to when it is given a list. A list that it did not
/// ask for leaves it where it is.
pub open spec fn admits(run: RunView, reply: ReplyView, out: OutcomeView) -> bool {
    match (run, reply) {
        (RunView::AwaitingGames { fname, characters }, ReplyView::Games(games)) => match out {
            OutcomeView::Continue(
                RunView::AwaitingFiles { game_id, fname: f, characters: c },
            ) => f == fname && c == characters && game_choice(games, Ok(game_id)),
            OutcomeView::Failed(error) => game_choice(games, Err(error)),
            _ => false,
        },
        (RunView::AwaitingFiles { game_id, fname, characters }, ReplyView::Files(files)) => {
            files_step(game_id, fname, characters, files, out)
        },
        (RunView::AwaitingCharacters { game_id, file }, ReplyView::Characters(pool)) => cast_step(
            game_id,
            file,
            pool,
            out,
        ),
        (RunView::AwaitingScene { substitution, .. }, ReplyView::Scene(scene)) => match recast(
            scene,
            substitution,
        ) {
            Ok(lines) => out == OutcomeView::Done(lines),
            Err(error) => out == OutcomeView::Failed(error),
        },
        _ => out == OutcomeView::Continue(run),
    }
}

impl Request {
    /// Builds the request string that fetches the list.
    pub fn url(&self) -> (url: String)
        ensures
            url@ == request_text(self@),
    {
        match self {
            Request::Games => games_url(),
            Request::Files { game_id } => file_url(*game_id),
            Request::Characters { game_id, page_size } => chr_detail_url(
                Some(*game_id),
                None,
                None,
                None,
                Some(*page_size),
            ),
            Request::Scene { game_id, fname } => script_detail_url(*game_id, fname.as_str()),
        }
    }
}

fn cast(game_id: u8, file: Metadata, pool: &Vec<Character>) -> (out: Outcome)
    ensures
        cast_step(game_id, file@, pool.deep_view(), out@),
{
    match draw_substitution(original_roster(&file), pool) {
        Ok(substitution) => Outcome::Continue(
            Run::AwaitingScene { game_id, fname: file.fname, substitution },
        ),
        Err(error) => Outcome::Failed(error),
    }
}

impl Run {
    /// The list that the run needs next.
    pub fn request(&self) -> (request: Request)
        ensures
            request@ == pending(self@),
    {
        match self {
            Run::AwaitingGames { .. } => Request::Games,
            Run::AwaitingFiles { game_id, .. } => Request::Files { game_id: *game_id },
            Run::AwaitingCharacters { game_id, .. } => Request::Characters {
                game_id: *game_id,
                page_size: POOL_PAGE_SIZE,
            },
            Run::AwaitingScene { game_id, fname, .. } => Request::Scene {
                game_id: *game_id,
                fname: fname.clone(),
            },
        }
    }

    /// Takes the run one list further: settles the game, then the file,
    /// then the replacements, and at last recasts the scene.
    pub fn step(self, reply: Reply) -> (out: Outcome)
        ensures
            admits(self@, reply@, out@),
    {
        match self {
            Run::AwaitingGames { fname, characters } => match reply {
                Reply::Games(games) => match pick_game(&games) {
                    Ok(game_id) => Outcome::Continue(
                        Run::AwaitingFiles { game_id, fname, characters },
                    ),
                    Err(error) => Outcome::Failed(error),
                },
                _ => Outcome::Continue(Run::AwaitingGames { fname, characters }),
            },
            Run::AwaitingFiles { game_id, fname, characters } => match reply {
                Reply::Files(files) => match pick_file(&files, &fname) {
                    Ok(i) => {
                        let ghost listed = files.deep_view();
                        let mut files = files;
                        let file = files.remove(i);
                        let out = match characters {
                            Some(pool) => cast(game_id, file, &pool),
                            None => Outcome::Continue(Run::AwaitingCharacters { game_id, file }),
                        };
                        assert(file_choice(listed, fname.deep_view(), Ok(i)) && file_step(
                            game_id,
                            listed[i as int],
                            characters.deep_view(),
                            out@,
                        ));
                        out
                    },
                    Err(error) => Outcome::Failed(error),
                },
                _ => Outcome::Continue(Run::AwaitingFiles { game_id, fname, characters }),
            },
            Run::AwaitingCharacters { game_id, file } => match reply {
                Reply::Characters(pool) => cast(game_id, file, &pool),
                _ => Outcome::Continue(Run::AwaitingCharacters { game_id, file }),
            },
            Run::AwaitingScene { game_id, fname, substitution } => match reply {
                Reply::Scene(scene) => match rewrite_scene(&scene, &substitution) {
                    Ok(lines) => Outcome::Done(lines),
                    Err(error) => Outcome::Failed(error),
                },
                _ => Outcome::Continue(Run::AwaitingScene { game_id, fname, substitution }),
            },
        }
    }
}

/// The configuration of a recasting. Each part may be left open: an open
/// game or file is picked at random, an open pool is fetched for the game.
#[derive(Clone, Debug)]
pub struct SceneRandomizer {
    game_id: Option<u8>,
    fname: Option<String>,
    characters: Option<Vec<Character>>,
}

/// What a [`SceneRandomizer`] holds.
pub struct SceneRandomizerView {
    pub game_id: Option<u8>,
    pub fname: Option<Seq<char>>,
    pub characters: Option<Seq<CharacterView>>,
}

impl View for SceneRandomizer {
    type V = SceneRandomizerView;

    closed spec fn view(&self) -> SceneRandomizerView {
        SceneRandomizerView {
            game_id: self.game_id,
            fname: self.fname.deep_view(),
            characters: self.characters.deep_view(),
        }
    }
}

/// Where a recasting starts: with the files of the configured game, or
/// with the list of games where none is configured.
pub open spec fn first_stage(config: SceneRandomizerView) -> RunView {
    match config.game_id {
        Some(game_id) => RunView::AwaitingFiles {
            game_id,
            fname: config.fname,
            characters: config.characters,
        },
        None => RunView::AwaitingGames { fname: config.fname, characters: config.characters },
    }
}

impl Default for SceneRandomizer {
    /// The configuration with every part left open.
    fn default() -> (config: Self)
        ensures
            config@ == (SceneRandomizerView { game_id: None, fname: None, characters: None }),
    {
        SceneRandomizer { game_id: None, fname: None, characters: None }
    }
}

impl SceneRandomizer {
    /// A configuration of the given parts.
    pub fn new(characters: Option<Vec<Character>>, game_id: Option<u8>, fname: Option<String>) -> (config:
        Self)
        ensures
            config@ == (SceneRandomizerView {
                game_id,
                fname: fname.deep_view(),
                characters: characters.deep_view(),
            }),
    {
        Self { characters, game_id, fname }
    }

    /// Starts a recasting.
    pub fn start(self) -> (run: Run)
        ensures
            run@ == first_stage(self@),
    {
        match self.game_id {
            Some(game_id) => Run::AwaitingFiles {
                game_id,
                fname: self.fname,
                characters: self.characters,
            },
            None => Run::AwaitingGames { fname: self.fname, characters: self.characters },
        }
    }
}

} // verus!
