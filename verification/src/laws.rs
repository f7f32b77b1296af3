//! What holds of every recasting, whatever is drawn.

use crate::api::{CharacterView, MetadataView, ScriptView};
use crate::pick::{has_dialogue_file, has_file};
use crate::rand::{
    admits, cast_step, first_stage, OutcomeView, RandomizeError, ReplyView, RunView,
    SceneRandomizerView,
};
use crate::recast::{
    all_in_roster, in_roster, is_position, is_substitution, lemma_first_position_exists,
    lemma_position_is_unique, original_speakers, position, recast, rewritten_scene,
    ReplacementView,
};
use vstd::prelude::*;

verus! {

/// The second line is the first with, at most, other speaker names.
pub open spec fn differs_in_speaker_only(before: ScriptView, after: ScriptView) -> bool {
    after == (ScriptView {
        eng_chr_name: after.eng_chr_name,
        jpn_chr_name: after.jpn_chr_name,
        ..before
    })
}

/// A recast scene has as many lines as the scene it was made from, in the
/// same order: line for line, nothing but the speaker differs.
pub proof fn lemma_recast_keeps_length_and_order(
    scene: Seq<ScriptView>,
    substitution: Seq<ReplacementView>,
)
    ensures
        recast(scene, substitution) matches Ok(lines) ==> lines.len() == scene.len()
            && forall|k: int|
            0 <= k < scene.len() ==> differs_in_speaker_only(scene[k], #[trigger] lines[k]),
{
}

/// A rewritten line bears exactly the two names recorded at its place in
/// the roster, and is otherwise the line it was.
pub proof fn lemma_line_takes_recorded_names(
    scene: Seq<ScriptView>,
    substitution: Seq<ReplacementView>,
    k: int,
    i: int,
)
    requires
        0 <= k < scene.len(),
        is_position(substitution, scene[k], i),
    ensures
        rewritten_scene(scene, substitution)[k].eng_chr_name == substitution[i].eng_chr_name,
        rewritten_scene(scene, substitution)[k].jpn_chr_name == substitution[i].jpn_chr_name,
        differs_in_speaker_only(scene[k], rewritten_scene(scene, substitution)[k]),
{
    lemma_position_is_unique(substitution, scene[k], i);
}

/// With a pool of one character, every line of a recast scene bears that
/// character's names.
pub proof fn lemma_pool_of_one_names_every_line(
    roster: Seq<Seq<char>>,
    pool: Seq<CharacterView>,
    substitution: Seq<ReplacementView>,
    scene: Seq<ScriptView>,
)
    requires
        pool.len() == 1,
        is_substitution(roster, pool, substitution),
    ensures
        recast(scene, substitution) matches Ok(lines) ==> forall|k: int|
            0 <= k < lines.len() ==> (#[trigger] lines[k]).eng_chr_name == pool[0].eng_chr_name
                && lines[k].jpn_chr_name == pool[0].jpn_chr_name,
{
    if all_in_roster(scene, substitution) {
        let lines = rewritten_scene(scene, substitution);
        assert forall|k: int| 0 <= k < lines.len() implies (#[trigger] lines[k]).eng_chr_name
            == pool[0].eng_chr_name && lines[k].jpn_chr_name == pool[0].jpn_chr_name by {
            assert(in_roster(substitution, scene[k]));
            lemma_first_position_exists(substitution, scene[k]);
            let i = position(substitution, scene[k]);
            assert(is_position(substitution, scene[k], i));
            assert(substitution[i].eng_chr_name == pool[0].eng_chr_name);
        }
    }
}

/// Where a file has English names, its Japanese names play no part: the
/// roster is the English list, and whatever may be drawn for the file may be
/// drawn for any file that differs from it in the Japanese list alone.
pub proof fn lemma_english_names_take_precedence(
    file: MetadataView,
    jpn_chr_names: Seq<Seq<char>>,
    game_id: u8,
    pool: Seq<CharacterView>,
    out: OutcomeView,
)
    requires
        file.eng_chr_names.len() > 0,
    ensures
        original_speakers(file) == file.eng_chr_names,
        original_speakers(MetadataView { jpn_chr_names, ..file }) == original_speakers(file),
        cast_step(game_id, MetadataView { jpn_chr_names, ..file }, pool, out) == cast_step(
            game_id,
            file,
            pool,
            out,
        ),
{
}

/// With a game configured, a recasting that is given files among which
/// there is none to pick fails: for want of dialogue where no file name is
/// configured, for want of the file where one is.
pub proof fn lemma_no_file_to_pick(
    config: SceneRandomizerView,
    files: Seq<MetadataView>,
    out: OutcomeView,
)
    requires
        config.game_id is Some,
        match config.fname {
            Some(name) => !has_file(files, name),
            None => !has_dialogue_file(files),
        },
        admits(first_stage(config), ReplyView::Files(files), out),
    ensures
        out == match config.fname {
            Some(_) => OutcomeView::Failed(RandomizeError::FileNotFound),
            None => OutcomeView::Failed(RandomizeError::NoDialogueFiles),
        },
{
}

/// A scene with one line whose speaker is not in the roster is not recast
/// at all: the run that is given it fails, and no line is passed over.
pub proof fn lemma_absent_speaker_fails(
    game_id: u8,
    fname: Seq<char>,
    substitution: Seq<ReplacementView>,
    scene: Seq<ScriptView>,
    k: int,
    out: OutcomeView,
)
    requires
        0 <= k < scene.len(),
        !in_roster(substitution, scene[k]),
        admits(
            RunView::AwaitingScene { game_id, fname, substitution },
            ReplyView::Scene(scene),
            out,
        ),
    ensures
        recast(scene, substitution) == Err::<Seq<ScriptView>, RandomizeError>(
            RandomizeError::SpeakerNotInFileRoster,
        ),
        out == OutcomeView::Failed(RandomizeError::SpeakerNotInFileRoster),
{
}

} // verus!
