//! The substitution of a roster and the rewriting of a scene by it.
//!
//! A substitution holds, for every place of a file's roster, the roster's
//! name and the two names of the character drawn for that place. A line of
//! the scene takes the names at the first place where its speaker stands.

use crate::api::{Character, CharacterView, Metadata, MetadataView, Script, ScriptView};
use crate::rand::RandomizeError;
use ::rand::seq::SliceRandom;
use vstd::prelude::*;

verus! {

/// The replacement drawn for one place of a roster.
#[derive(Clone, Debug, PartialEq, Eq)]
pub struct Replacement {
    /// The roster's name at this place.
    pub original: String,
    /// The English name of the character drawn for it.
    pub eng_chr_name: String,
    /// The Japanese name of the character drawn for it.
    pub jpn_chr_name: String,
}

/// What a [`Replacement`] holds.
pub struct ReplacementView {
    pub original: Seq<char>,
    pub eng_chr_name: Seq<char>,
    pub jpn_chr_name: Seq<char>,
}

impl View for Replacement {
    type V = ReplacementView;

    open spec fn view(&self) -> ReplacementView {
        ReplacementView {
            original: self.original@,
            eng_chr_name: self.eng_chr_name@,
            jpn_chr_name: self.jpn_chr_name@,
        }
    }
}

impl DeepView for Replacement {
    type V = ReplacementView;

    open spec fn deep_view(&self) -> ReplacementView {
        self@
    }
}

/// The roster that a file's lines are matched against: the English names
/// wherever there are any, else the Japanese names.
pub open spec fn original_speakers(file: MetadataView) -> Seq<Seq<char>> {
    if file.eng_chr_names.len() > 0 {
        file.eng_chr_names
    } else {
        file.jpn_chr_names
    }
}

/// The replacement bears the names of some character of the pool.
pub open spec fn drawn_from(pool: Seq<CharacterView>, replacement: ReplacementView) -> bool {
    exists|j: int|
        0 <= j < pool.len() && replacement.eng_chr_name == (#[trigger] pool[j]).eng_chr_name
            && replacement.jpn_chr_name == pool[j].jpn_chr_name
}

/// The list is a substitution for the roster out of the pool: place by
/// place it holds the roster's name and a replacement drawn from the pool.
pub open spec fn is_substitution(
    roster: Seq<Seq<char>>,
    pool: Seq<CharacterView>,
    substitution: Seq<ReplacementView>,
) -> bool {
    &&& substitution.len() == roster.len()
    &&& forall|i: int|
        0 <= i < substitution.len() ==> (#[trigger] substitution[i]).original == roster[i]
            && drawn_from(pool, substitution[i])
}

/// The name is the line's speaker, in English or in Japanese.
pub open spec fn speaks(name: Seq<char>, line: ScriptView) -> bool {
    name == line.eng_chr_name || name == line.jpn_chr_name
}

/// The line's speaker stands somewhere in the roster.
pub open spec fn in_roster(substitution: Seq<ReplacementView>, line: ScriptView) -> bool {
    exists|i: int|
        0 <= i < substitution.len() && speaks((#[trigger] substitution[i]).original, line)
}

/// `i` is the line's place in the roster: the first at which its speaker
/// stands.
pub open spec fn is_position(
    substitution: Seq<ReplacementView>,
    line: ScriptView,
    i: int,
) -> bool {
    &&& 0 <= i < substitution.len()
    &&& speaks(substitution[i].original, line)
    &&& forall|j: int| 0 <= j < i ==> !speaks((#[trigger] substitution[j]).original, line)
}

/// The line's place in the roster, where its speaker is in the roster.
pub open spec fn position(substitution: Seq<ReplacementView>, line: ScriptView) -> int {
    choose|i: int| is_position(substitution, line, i)
}

/// The line with its two speaker names replaced and nothing else touched.
pub open spec fn rewritten(line: ScriptView, by: ReplacementView) -> ScriptView {
    ScriptView { eng_chr_name: by.eng_chr_name, jpn_chr_name: by.jpn_chr_name, ..line }
}

/// Every line of the scene has its speaker in the roster.
pub open spec fn all_in_roster(
    scene: Seq<ScriptView>,
    substitution: Seq<ReplacementView>,
) -> bool {
    forall|k: int| 0 <= k < scene.len() ==> in_roster(substitution, #[trigger] scene[k])
}

/// The scene with every line rewritten by the replacement at its place in
/// the roster, in the order of the scene.
pub open spec fn rewritten_scene(
    scene: Seq<ScriptView>,
    substitution: Seq<ReplacementView>,
) -> Seq<ScriptView> {
    Seq::new(
        scene.len(),
        |k: int| rewritten(scene[k], substitution[position(substitution, scene[k])]),
    )
}

/// What recasting a scene comes to: the rewritten scene where every line's
/// speaker is in the roster, else a failure.
pub open spec fn recast(
    scene: Seq<ScriptView>,
    substitution: Seq<ReplacementView>,
) -> Result<Seq<ScriptView>, RandomizeError> {
    if all_in_roster(scene, substitution) {
        Ok(rewritten_scene(scene, substitution))
    } else {
        Err(RandomizeError::SpeakerNotInFileRoster)
    }
}

/// A line's place in a roster is unique.
pub proof fn lemma_position_is_unique(
    substitution: Seq<ReplacementView>,
    line: ScriptView,
    i: int,
)
    requires
        is_position(substitution, line, i),
    ensures
        in_roster(substitution, line),
        position(substitution, line) == i,
{
    let p = position(substitution, line);
    assert(is_position(substitution, line, p));
    if p < i {
        assert(!speaks(substitution[p].original, line));
    } else if i < p {
        assert(!speaks(substitution[i].original, line));
    }
}

/// A speaker that stands in the roster has a first place there.
pub proof fn lemma_first_position_exists(substitution: Seq<ReplacementView>, line: ScriptView)
    requires
        in_roster(substitution, line),
    ensures
        is_position(substitution, line, position(substitution, line)),
{
    let some = choose|i: int|
        0 <= i < substitution.len() && speaks(
            (#[trigger] substitution[i]).original,
            line,
        );
    lemma_first_position_below(substitution, line, some);
}

proof fn lemma_first_position_below(
    substitution: Seq<ReplacementView>,
    line: ScriptView,
    bound: int,
)
    requires
        0 <= bound < substitution.len(),
        speaks(substitution[bound].original, line),
    ensures
        exists|i: int| is_position(substitution, line, i),
    decreases bound,
{
    if forall|j: int|
        0 <= j < bound ==> !speaks((#[trigger] substitution[j]).original, line) {
        assert(is_position(substitution, line, bound));
    } else {
        let j = choose|j: int|
            0 <= j < bound && speaks((#[trigger] substitution[j]).original, line);
        lemma_first_position_below(substitution, line, j);
    }
}

/// The roster that a file's lines are matched against.
pub fn original_roster(file: &Metadata) -> (roster: &Vec<String>)
    ensures
        roster.deep_view() == original_speakers(file@),
{
    if !file.eng_chr_names.is_empty() {
        &file.eng_chr_names
    } else {
        &file.jpn_chr_names
    }
}

/// Finds the line's place in the roster.
pub fn speaker_position(substitution: &Vec<Replacement>, line: &Script) -> (found: Option<usize>)
    ensures
        match found {
            Some(i) => is_position(substitution.deep_view(), line@, i as int),
            None => !in_roster(substitution.deep_view(), line@),
        },
{
    let mut i: usize = 0;
    while i < substitution.len()
        invariant
            i <= substitution.len(),
            forall|j: int|
                0 <= j < i ==> !speaks((#[trigger] substitution.deep_view()[j]).original, line@),
        decreases substitution.len() - i,
    {
        if substitution[i].original == line.eng_chr_name || substitution[i].original
            == line.jpn_chr_name {
            return Some(i);
        }
        i = i + 1;
    }
    None
}

fn clone_text(text: &Option<String>) -> (copy: Option<String>)
    ensures
        copy == *text,
{
    match text {
        Some(t) => Some(t.clone()),
        None => None,
    }
}

/// Copies the line with its two speaker names replaced.
pub fn rewrite_line(line: &Script, by: &Replacement) -> (out: Script)
    ensures
        out@ == rewritten(line@, by@),
{
    Script {
        game_id: line.game_id,
        fname: line.fname.clone(),
        scene: clone_text(&line.scene),
        row: line.row,
        eng_chr_name: by.eng_chr_name.clone(),
        eng_search_text: line.eng_search_text.clone(),
        jpn_chr_name: by.jpn_chr_name.clone(),
        jpn_search_text: line.jpn_search_text.clone(),
        jpn_html_text: line.jpn_html_text.clone(),
        op_name: line.op_name.clone(),
        pc_icon_html: clone_text(&line.pc_icon_html),
        evo_icon_html: clone_text(&line.evo_icon_html),
    }
}

/// Recasts a scene: every line takes the names of the replacement at its
/// speaker's place in the roster, and the lines keep their order. A line
/// whose speaker is not in the roster fails the whole scene.
pub fn rewrite_scene(scene: &Vec<Script>, substitution: &Vec<Replacement>) -> (result: Result<
    Vec<Script>,
    RandomizeError,
>)
    ensures
        result matches Ok(out) ==> out.len() == scene.len(),
        recast(scene.deep_view(), substitution.deep_view()) == match result {
            Ok(out) => Ok::<Seq<ScriptView>, RandomizeError>(out.deep_view()),
            Err(error) => Err::<Seq<ScriptView>, RandomizeError>(error),
        },
{
    let ghost lines = scene.deep_view();
    let ghost roster = substitution.deep_view();
    let mut out: Vec<Script> = Vec::new();
    let mut k: usize = 0;
    while k < scene.len()
        invariant
            k <= scene.len(),
            lines == scene.deep_view(),
            roster == substitution.deep_view(),
            out.len() == k,
            forall|j: int| 0 <= j < k ==> in_roster(roster, #[trigger] lines[j]),
            forall|j: int|
                0 <= j < k ==> (#[trigger] out[j])@ == rewritten(
                    lines[j],
                    roster[position(roster, lines[j])],
                ),
        decreases scene.len() - k,
    {
        match speaker_position(substitution, &scene[k]) {
            None => {
                assert(!in_roster(roster, lines[k as int]));
                return Err(RandomizeError::SpeakerNotInFileRoster);
            },
            Some(i) => {
                proof {
                    lemma_position_is_unique(roster, lines[k as int], i as int);
                }
                out.push(rewrite_line(&scene[k], &substitution[i]));
            },
        }
        k = k + 1;
    }
    assert(out.deep_view() =~= rewritten_scene(lines, roster));
    Ok(out)
}

/// Draws one item of the list by `rand::seq::SliceRandom::choose`, run on
/// the list as a slice with the generator of `rand::thread_rng`. Taken on
/// trust: nothing comes back exactly when the list is empty, and what comes
/// back is an item of the list. Which item is left open.
#[verifier::external_body]
fn choose_of_slice<'a, T>(items: &'a Vec<T>) -> (choice: Option<&'a T>)
    ensures
        choice is None <==> items@.len() == 0,
        choice matches Some(item) ==> exists|i: int|
            0 <= i < items@.len() && #[trigger] items@[i] == *item,
{
    SliceRandom::choose(items.as_slice(), &mut ::rand::thread_rng())
}

/// The replacement that a draw from the pool settles for one name of the
/// roster: the drawn character's two names, or a failure where nothing
/// could be drawn.
pub fn replacement_of(original: &String, choice: Option<&Character>) -> (result: Result<
    Replacement,
    RandomizeError,
>)
    ensures
        match choice {
            Some(character) => result matches Ok(replacement) && replacement@ == (ReplacementView {
                original: original@,
                eng_chr_name: character@.eng_chr_name,
                jpn_chr_name: character@.jpn_chr_name,
            }),
            None => result == Err::<Replacement, RandomizeError>(RandomizeError::EmptyPool),
        },
{
    match choice {
        Some(character) => Ok(
            Replacement {
                original: original.clone(),
                eng_chr_name: character.eng_chr_name.clone(),
                jpn_chr_name: character.jpn_chr_name.clone(),
            },
        ),
        None => Err(RandomizeError::EmptyPool),
    }
}

/// What drawing a substitution may come to: a substitution for the roster
/// out of the pool, or a failure exactly where the roster names someone and
/// the pool holds no one.
pub open spec fn substitution_choice(
    roster: Seq<Seq<char>>,
    pool: Seq<CharacterView>,
    result: Result<Seq<ReplacementView>, RandomizeError>,
) -> bool {
    match result {
        Ok(substitution) => (roster.len() > 0 ==> pool.len() > 0) && is_substitution(
            roster,
            pool,
            substitution,
        ),
        Err(error) => error == RandomizeError::EmptyPool && roster.len() > 0 && pool.len() == 0,
    }
}

/// Draws a replacement for every place of the roster, each on its own: a
/// name that stands twice in the roster is drawn for twice.
pub fn draw_substitution(roster: &Vec<String>, pool: &Vec<Character>) -> (result: Result<
    Vec<Replacement>,
    RandomizeError,
>)
    ensures
        substitution_choice(
            roster.deep_view(),
            pool.deep_view(),
            match result {
                Ok(substitution) => Ok::<Seq<ReplacementView>, RandomizeError>(
                    substitution.deep_view(),
                ),
                Err(error) => Err::<Seq<ReplacementView>, RandomizeError>(error),
            },
        ),
{
    let mut substitution: Vec<Replacement> = Vec::new();
    let mut i: usize = 0;
    while i < roster.len()
        invariant
            i <= roster.len(),
            substitution.len() == i,
            i > 0 ==> pool.len() > 0,
            forall|k: int|
                0 <= k < i ==> (#[trigger] substitution.deep_view()[k]).original
                    == roster.deep_view()[k] && drawn_from(
                    pool.deep_view(),
                    substitution.deep_view()[k],
                ),
        decreases roster.len() - i,
    {
        let choice = choose_of_slice(pool);
        match replacement_of(&roster[i], choice) {
            Err(error) => {
                return Err(error);
            },
            Ok(replacement) => {
                proof {
                    let character = choice->0;
                    let j = choose|j: int| 0 <= j < pool@.len() && #[trigger] pool@[j] == *character;
                    assert(pool.deep_view()[j] == character@);
                    assert(drawn_from(pool.deep_view(), replacement@));
                }
                let ghost before = substitution.deep_view();
                substitution.push(replacement);
                assert forall|k: int| 0 <= k < i + 1 implies (
                #[trigger] substitution.deep_view()[k]).original == roster.deep_view()[k]
                    && drawn_from(pool.deep_view(), substitution.deep_view()[k]) by {
                    if k < i {
                        assert(substitution.deep_view()[k] == before[k]);
                    }
                }
            },
        }
        i = i + 1;
    }
    Ok(substitution)
}

} // verus!
