//! Settling the game and the file of a scene: by the configured name, or
//! by a draw among the candidates that the service lists.

use crate::api::{Game, GameView, Metadata, MetadataView};
use crate::rand::RandomizeError;
use ::rand::seq::IteratorRandom;
use vstd::prelude::*;

verus! {

/// A file has dialogue when one of its two rosters names a speaker.
pub open spec fn has_dialogue(file: MetadataView) -> bool {
    file.eng_chr_names.len() > 0 || file.jpn_chr_names.len() > 0
}

/// Some file of the list bears the name.
pub open spec fn has_file(files: Seq<MetadataView>, fname: Seq<char>) -> bool {
    exists|i: int| 0 <= i < files.len() && (#[trigger] files[i]).fname == fname
}

/// `i` is the place of the first file that bears the name.
pub open spec fn first_named(files: Seq<MetadataView>, fname: Seq<char>, i: int) -> bool {
    &&& 0 <= i < files.len()
    &&& files[i].fname == fname
    &&& forall|j: int| 0 <= j < i ==> (#[trigger] files[j]).fname != fname
}

/// Some file of the list has dialogue.
pub open spec fn has_dialogue_file(files: Seq<MetadataView>) -> bool {
    exists|i: int| 0 <= i < files.len() && has_dialogue(#[trigger] files[i])
}

/// Finds the first file that bears the name.
pub fn find_file(files: &Vec<Metadata>, fname: &String) -> (found: Option<usize>)
    ensures
        match found {
            Some(i) => first_named(files.deep_view(), fname@, i as int),
            None => !has_file(files.deep_view(), fname@),
        },
{
    let mut i: usize = 0;
    while i < files.len()
        invariant
            i <= files.len(),
            forall|j: int| 0 <= j < i ==> (#[trigger] files.deep_view()[j]).fname != fname@,
        decreases files.len() - i,
    {
        if files[i].fname == *fname {
            return Some(i);
        }
        i = i + 1;
    }
    None
}

/// Lists, in increasing order, the places of the files that have dialogue.
pub fn dialogue_files(files: &Vec<Metadata>) -> (places: Vec<usize>)
    ensures
        forall|k: int|
            0 <= k < places.len() ==> (#[trigger] places[k]) < files.len() && has_dialogue(
                files.deep_view()[places[k] as int],
            ),
        forall|k: int, l: int| 0 <= k < l < places.len() ==> places[k] < places[l],
        forall|i: int|
            0 <= i < files.len() && has_dialogue(#[trigger] files.deep_view()[i])
                ==> places@.contains(i as usize),
{
    let mut places: Vec<usize> = Vec::new();
    let mut i: usize = 0;
    while i < files.len()
        invariant
            i <= files.len(),
            forall|k: int|
                0 <= k < places.len() ==> (#[trigger] places[k]) < i && has_dialogue(
                    files.deep_view()[places[k] as int],
                ),
            forall|k: int, l: int| 0 <= k < l < places.len() ==> places[k] < places[l],
            forall|j: int|
                0 <= j < i && has_dialogue(#[trigger] files.deep_view()[j])
                    ==> places@.contains(j as usize),
        decreases files.len() - i,
    {
        if !files[i].eng_chr_names.is_empty() || !files[i].jpn_chr_names.is_empty() {
            let ghost before = places@;
            places.push(i);
            assert(places@[before.len() as int] == i);
            assert forall|j: int|
                0 <= j < i + 1 && has_dialogue(
                    #[trigger] files.deep_view()[j],
                ) implies places@.contains(j as usize) by {
                if j < i {
                    let k = choose|k: int| 0 <= k < before.len() && before[k] == j as usize;
                    assert(places@[k] == j as usize);
                }
            }
        }
        i = i + 1;
    }
    places
}

/// Draws one item of the list by `rand::seq::IteratorRandom::choose`, run
/// over the list's iterator with the generator of `rand::thread_rng`.
/// Taken on trust: nothing comes back exactly when the list is empty, and
/// what comes back is an item of the list. Which item is left open.
#[verifier::external_body]
fn choose_among<'a, T>(items: &'a Vec<T>) -> (choice: Option<&'a T>)
    ensures
        choice is None <==> items@.len() == 0,
        choice matches Some(item) ==> exists|i: int|
            0 <= i < items@.len() && #[trigger] items@[i] == *item,
{
    IteratorRandom::choose(items.iter(), &mut ::rand::thread_rng())
}

/// The game that a draw among the games settles: the drawn game's id, or
/// a failure where nothing could be drawn.
pub fn chosen_game(choice: Option<&Game>) -> (result: Result<u8, RandomizeError>)
    ensures
        result == match choice {
            Some(game) => Ok::<u8, RandomizeError>(game.id),
            None => Err::<u8, RandomizeError>(RandomizeError::NoGamesAvailable),
        },
{
    match choice {
        Some(game) => Ok(game.id),
        None => Err(RandomizeError::NoGamesAvailable),
    }
}

/// What picking a game may come to: the id of one of the games, or a
/// failure exactly where there is no game.
pub open spec fn game_choice(games: Seq<GameView>, result: Result<u8, RandomizeError>) -> bool {
    match result {
        Ok(id) => exists|i: int| 0 <= i < games.len() && (#[trigger] games[i]).id == id,
        Err(error) => error == RandomizeError::NoGamesAvailable && games.len() == 0,
    }
}

/// Picks a game at random.
pub fn pick_game(games: &Vec<Game>) -> (result: Result<u8, RandomizeError>)
    ensures
        game_choice(games.deep_view(), result),
{
    let choice = choose_among(games);
    proof {
        if let Some(game) = choice {
            let i = choose|i: int| 0 <= i < games@.len() && #[trigger] games@[i] == *game;
            assert(games.deep_view()[i].id == game.id);
        }
    }
    chosen_game(choice)
}

/// The file that a draw among the places of the files with dialogue
/// settles: the drawn place, or a failure where nothing could be drawn.
pub fn chosen_file(choice: Option<&usize>) -> (result: Result<usize, RandomizeError>)
    ensures
        result == match choice {
            Some(place) => Ok::<usize, RandomizeError>(*place),
            None => Err::<usize, RandomizeError>(RandomizeError::NoDialogueFiles),
        },
{
    match choice {
        Some(place) => Ok(*place),
        None => Err(RandomizeError::NoDialogueFiles),
    }
}

/// What picking a file may come to. With a name: the place of the first
/// file that bears it, or a failure exactly where none does. Without: the
/// place of one of the files that have dialogue, or a failure exactly
/// where none has.
pub open spec fn file_choice(
    files: Seq<MetadataView>,
    fname: Option<Seq<char>>,
    result: Result<usize, RandomizeError>,
) -> bool {
    match fname {
        Some(name) => match result {
            Ok(i) => first_named(files, name, i as int),
            Err(error) => error == RandomizeError::FileNotFound && !has_file(files, name),
        },
        None => match result {
            Ok(i) => 0 <= i < files.len() && has_dialogue(files[i as int]),
            Err(error) => error == RandomizeError::NoDialogueFiles && !has_dialogue_file(files),
        },
    }
}

/// Picks the file of the scene: the one that bears the name where a name
/// is given, else one of those with dialogue, at random.
pub fn pick_file(files: &Vec<Metadata>, fname: &Option<String>) -> (result: Result<
    usize,
    RandomizeError,
>)
    ensures
        file_choice(files.deep_view(), fname.deep_view(), result),
{
    match fname {
        Some(name) => match find_file(files, name) {
            Some(i) => Ok(i),
            None => Err(RandomizeError::FileNotFound),
        },
        None => {
            let places = dialogue_files(files);
            let choice = choose_among(&places);
            proof {
                if places.len() == 0 {
                    assert forall|i: int| 0 <= i < files.len() implies !has_dialogue(
                        #[trigger] files.deep_view()[i],
                    ) by {
                        if has_dialogue(files.deep_view()[i]) {
                            assert(places@.contains(i as usize));
                        }
                    }
                }
            }
            chosen_file(choice)
        },
    }
}

} // verus!
