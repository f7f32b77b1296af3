use titdb::api::{Character, Game, Metadata, Script};
use titdb::pick::{chosen_file, chosen_game, dialogue_files, find_file, pick_file, pick_game};
use titdb::rand::{
    Outcome, RandomizeError, Reply, Request, Run, SceneRandomizer, POOL_PAGE_SIZE,
};
use titdb::recast::{
    draw_substitution, original_roster, replacement_of, rewrite_line, rewrite_scene,
    speaker_position, Replacement,
};

fn game(id: u8) -> Game {
    Game {
        id,
        title_eng: format!("Game {}", id),
        title_jpn_roman: format!("Geemu {}", id),
        title_jpn: format!("ゲーム {}", id),
        rows: None,
    }
}

fn file(fname: &str, eng: &[&str], jpn: &[&str]) -> Metadata {
    Metadata {
        game_id: 1,
        fname: fname.to_string(),
        rows: 2,
        eng_place_names: None,
        jpn_place_names: None,
        eng_chr_names: eng.iter().map(|s| s.to_string()).collect(),
        jpn_chr_names: jpn.iter().map(|s| s.to_string()).collect(),
    }
}

fn character(eng: &str, jpn: &str) -> Character {
    Character {
        eng_chr_name: eng.to_string(),
        jpn_chr_name: jpn.to_string(),
        game_id: vec![1],
        rows: Some(3),
    }
}

fn line(row: u32, eng: &str, jpn: &str) -> Script {
    Script {
        game_id: 1,
        fname: "c0100".to_string(),
        scene: Some("Prologue".to_string()),
        row,
        eng_chr_name: eng.to_string(),
        eng_search_text: format!("line {}", row),
        jpn_chr_name: jpn.to_string(),
        jpn_search_text: format!("{} 行", row),
        jpn_html_text: format!("<p>{} 行</p>", row),
        op_name: "dialog".to_string(),
        pc_icon_html: Some("<img/>".to_string()),
        evo_icon_html: None,
    }
}

fn replacement(original: &str, eng: &str, jpn: &str) -> Replacement {
    Replacement {
        original: original.to_string(),
        eng_chr_name: eng.to_string(),
        jpn_chr_name: jpn.to_string(),
    }
}

fn with_speaker(mut l: Script, eng: &str, jpn: &str) -> Script {
    l.eng_chr_name = eng.to_string();
    l.jpn_chr_name = jpn.to_string();
    l
}

fn is_one_of(l: &Script, pool: &[Character]) -> bool {
    pool.iter().any(|c| c.eng_chr_name == l.eng_chr_name && c.jpn_chr_name == l.jpn_chr_name)
}

#[test]
fn default_starts_with_the_games() {
    let run = SceneRandomizer::default().start();
    assert_eq!(run, Run::AwaitingGames { fname: None, characters: None });
    assert_eq!(run.request(), Request::Games);
}

#[test]
fn configured_game_starts_with_its_files() {
    let run = SceneRandomizer::new(None, Some(4), None).start();
    assert_eq!(run, Run::AwaitingFiles { game_id: 4, fname: None, characters: None });
    assert_eq!(run.request(), Request::Files { game_id: 4 });
}

#[test]
fn new_keeps_every_part() {
    let pool = vec![character("A", "あ")];
    let run = SceneRandomizer::new(Some(pool.clone()), None, Some("c0100".to_string())).start();
    assert_eq!(
        run,
        Run::AwaitingGames { fname: Some("c0100".to_string()), characters: Some(pool.clone()) }
    );
    let run = SceneRandomizer::new(Some(pool.clone()), Some(2), Some("c0100".to_string())).start();
    assert_eq!(
        run,
        Run::AwaitingFiles {
            game_id: 2,
            fname: Some("c0100".to_string()),
            characters: Some(pool)
        }
    );
}

#[test]
fn pool_page_size_is_five_hundred() {
    assert_eq!(POOL_PAGE_SIZE, 500);
}

#[test]
fn pending_requests() {
    let awaiting = Run::AwaitingCharacters { game_id: 4, file: file("c0100", &["Estelle"], &[]) };
    assert_eq!(awaiting.request(), Request::Characters { game_id: 4, page_size: 500 });
    let awaiting =
        Run::AwaitingScene { game_id: 3, fname: "c0100".to_string(), substitution: vec![] };
    assert_eq!(awaiting.request(), Request::Scene { game_id: 3, fname: "c0100".to_string() });
}

#[test]
fn request_urls() {
    assert_eq!(Request::Games.url(), "https://trailsinthedatabase.com/api/game");
    assert_eq!(
        Request::Files { game_id: 4 }.url(),
        "https://trailsinthedatabase.com/api/file?game_id=4"
    );
    assert_eq!(
        Request::Characters { game_id: 4, page_size: 500 }.url(),
        "https://trailsinthedatabase.com/api/chr/detail?game_id=4&asc=&sort=&page_numer=&page_size=500"
    );
    assert_eq!(
        Request::Scene { game_id: 1, fname: "c0100".to_string() }.url(),
        "https://trailsinthedatabase.com/api/script/detail/1/c0100"
    );
}

#[test]
fn no_games_available() {
    let run = SceneRandomizer::default().start();
    assert_eq!(run.step(Reply::Games(vec![])), Outcome::Failed(RandomizeError::NoGamesAvailable));
    assert_eq!(pick_game(&vec![]), Err(RandomizeError::NoGamesAvailable));
    assert_eq!(chosen_game(None), Err(RandomizeError::NoGamesAvailable));
}

#[test]
fn the_only_game_is_picked() {
    let run = SceneRandomizer::new(None, None, Some("c0100".to_string())).start();
    assert_eq!(
        run.step(Reply::Games(vec![game(7)])),
        Outcome::Continue(Run::AwaitingFiles {
            game_id: 7,
            fname: Some("c0100".to_string()),
            characters: None
        })
    );
    assert_eq!(chosen_game(Some(&game(9))), Ok(9));
}

#[test]
fn a_listed_game_is_picked() {
    let games = vec![game(1), game(4), game(9)];
    let mut seen = [false; 3];
    for _ in 0..300 {
        let id = pick_game(&games).unwrap();
        assert!(id == 1 || id == 4 || id == 9);
        seen[games.iter().position(|g| g.id == id).unwrap()] = true;
    }
    assert!(seen.iter().all(|s| *s));
}

#[test]
fn named_file_is_found() {
    let files = vec![file("c0000", &[], &[]), file("c0100", &["Estelle"], &[]), file("c0200", &[], &[])];
    assert_eq!(find_file(&files, &"c0100".to_string()), Some(1));
    assert_eq!(find_file(&files, &"c0000".to_string()), Some(0));
    assert_eq!(find_file(&files, &"c0300".to_string()), None);
    assert_eq!(find_file(&vec![], &"c0100".to_string()), None);
    assert_eq!(pick_file(&files, &Some("c0200".to_string())), Ok(2));
}

#[test]
fn first_of_two_files_of_one_name_is_found() {
    let files = vec![file("c0100", &["Estelle"], &[]), file("c0100", &["Joshua"], &[])];
    assert_eq!(find_file(&files, &"c0100".to_string()), Some(0));
    let run = SceneRandomizer::new(None, Some(1), Some("c0100".to_string())).start();
    assert_eq!(
        run.step(Reply::Files(files.clone())),
        Outcome::Continue(Run::AwaitingCharacters { game_id: 1, file: files[0].clone() })
    );
}

#[test]
fn file_not_found() {
    let files = vec![file("c0100", &["Estelle"], &[])];
    let run = SceneRandomizer::new(None, Some(1), Some("c9999".to_string())).start();
    assert_eq!(run.step(Reply::Files(files.clone())), Outcome::Failed(RandomizeError::FileNotFound));
    assert_eq!(pick_file(&files, &Some("c9999".to_string())), Err(RandomizeError::FileNotFound));
    assert_eq!(pick_file(&vec![], &Some("c0100".to_string())), Err(RandomizeError::FileNotFound));
}

#[test]
fn no_dialogue_files() {
    let files = vec![file("c0000", &[], &[]), file("c0001", &[], &[])];
    let run = SceneRandomizer::new(None, Some(1), None).start();
    assert_eq!(
        run.step(Reply::Files(files.clone())),
        Outcome::Failed(RandomizeError::NoDialogueFiles)
    );
    assert_eq!(pick_file(&files, &None), Err(RandomizeError::NoDialogueFiles));
    assert_eq!(pick_file(&vec![], &None), Err(RandomizeError::NoDialogueFiles));
    assert_eq!(chosen_file(None), Err(RandomizeError::NoDialogueFiles));
    assert_eq!(chosen_file(Some(&3)), Ok(3));
}

#[test]
fn a_named_file_needs_no_dialogue() {
    let files = vec![file("c0000", &[], &[])];
    let run = SceneRandomizer::new(None, Some(1), Some("c0000".to_string())).start();
    assert_eq!(
        run.step(Reply::Files(files.clone())),
        Outcome::Continue(Run::AwaitingCharacters { game_id: 1, file: files[0].clone() })
    );
}

#[test]
fn dialogue_files_are_listed_in_order() {
    let files = vec![
        file("c0000", &[], &[]),
        file("c0100", &["Estelle"], &[]),
        file("c0200", &[], &["ヨシュア"]),
        file("c0300", &[], &[]),
        file("c0400", &["Estelle"], &["エステル"]),
    ];
    assert_eq!(dialogue_files(&files), vec![1, 2, 4]);
    assert_eq!(dialogue_files(&vec![]), Vec::<usize>::new());
    assert_eq!(dialogue_files(&vec![file("c0000", &[], &[])]), Vec::<usize>::new());
}

#[test]
fn only_files_with_dialogue_are_picked() {
    let files = vec![
        file("c0000", &[], &[]),
        file("c0100", &["Estelle"], &[]),
        file("c0200", &[], &["ヨシュア"]),
        file("c0300", &[], &[]),
    ];
    let mut seen = [false; 4];
    for _ in 0..300 {
        let i = pick_file(&files, &None).unwrap();
        assert!(i == 1 || i == 2);
        seen[i] = true;
    }
    assert!(seen[1] && seen[2]);
    let run = SceneRandomizer::new(None, Some(1), None).start();
    let only = vec![file("c0000", &[], &[]), file("c0200", &[], &["ヨシュア"])];
    assert_eq!(
        run.step(Reply::Files(only.clone())),
        Outcome::Continue(Run::AwaitingCharacters { game_id: 1, file: only[1].clone() })
    );
}

#[test]
fn english_roster_comes_first() {
    let both = file("c0100", &["Estelle"], &["エステル", "ヨシュア"]);
    assert_eq!(original_roster(&both), &vec!["Estelle".to_string()]);
    let japanese = file("c0100", &[], &["エステル", "ヨシュア"]);
    assert_eq!(original_roster(&japanese), &vec!["エステル".to_string(), "ヨシュア".to_string()]);
    let neither = file("c0100", &[], &[]);
    assert_eq!(original_roster(&neither), &Vec::<String>::new());
}

#[test]
fn japanese_roster_is_not_consulted_beside_an_english_one() {
    let pool = vec![character("A", "あ")];
    let files = vec![file("c0100", &["Estelle"], &["エステル", "ヨシュア"])];
    let run = SceneRandomizer::new(Some(pool), Some(1), Some("c0100".to_string())).start();
    let run = match run.step(Reply::Files(files)) {
        Outcome::Continue(run) => run,
        other => panic!("{:?}", other),
    };
    assert_eq!(
        run,
        Run::AwaitingScene {
            game_id: 1,
            fname: "c0100".to_string(),
            substitution: vec![replacement("Estelle", "A", "あ")]
        }
    );
    let scene = vec![line(1, "Estelle", "エステル"), line(2, "Joshua", "ヨシュア")];
    assert_eq!(
        run.step(Reply::Scene(scene)),
        Outcome::Failed(RandomizeError::SpeakerNotInFileRoster)
    );
}

#[test]
fn japanese_roster_serves_where_there_is_no_english_one() {
    let pool = vec![character("A", "あ")];
    let files = vec![file("c0100", &[], &["エステル", "ヨシュア"])];
    let run = SceneRandomizer::new(Some(pool), Some(1), None).start();
    let run = match run.step(Reply::Files(files)) {
        Outcome::Continue(run) => run,
        other => panic!("{:?}", other),
    };
    let scene = vec![line(1, "Estelle", "エステル"), line(2, "Joshua", "ヨシュア")];
    assert_eq!(
        run.step(Reply::Scene(scene.clone())),
        Outcome::Done(vec![
            with_speaker(scene[0].clone(), "A", "あ"),
            with_speaker(scene[1].clone(), "A", "あ")
        ])
    );
}

#[test]
fn empty_pool_fails_a_roster() {
    let roster = vec!["Estelle".to_string()];
    assert_eq!(draw_substitution(&roster, &vec![]), Err(RandomizeError::EmptyPool));
    assert_eq!(replacement_of(&roster[0], None), Err(RandomizeError::EmptyPool));
    let run = SceneRandomizer::new(Some(vec![]), Some(1), None).start();
    assert_eq!(
        run.step(Reply::Files(vec![file("c0100", &["Estelle"], &[])])),
        Outcome::Failed(RandomizeError::EmptyPool)
    );
    let run = Run::AwaitingCharacters { game_id: 1, file: file("c0100", &[], &["エステル"]) };
    assert_eq!(run.step(Reply::Characters(vec![])), Outcome::Failed(RandomizeError::EmptyPool));
}

#[test]
fn empty_pool_serves_an_empty_roster() {
    assert_eq!(draw_substitution(&vec![], &vec![]), Ok(vec![]));
    let run = SceneRandomizer::new(Some(vec![]), Some(1), Some("c0000".to_string())).start();
    let run = match run.step(Reply::Files(vec![file("c0000", &[], &[])])) {
        Outcome::Continue(run) => run,
        other => panic!("{:?}", other),
    };
    assert_eq!(
        run,
        Run::AwaitingScene { game_id: 1, fname: "c0000".to_string(), substitution: vec![] }
    );
    assert_eq!(run.clone().step(Reply::Scene(vec![])), Outcome::Done(vec![]));
    assert_eq!(
        run.step(Reply::Scene(vec![line(1, "Estelle", "エステル")])),
        Outcome::Failed(RandomizeError::SpeakerNotInFileRoster)
    );
}

#[test]
fn replacement_bears_the_drawn_names() {
    let drawn = character("A", "あ");
    assert_eq!(
        replacement_of(&"Estelle".to_string(), Some(&drawn)),
        Ok(replacement("Estelle", "A", "あ"))
    );
}

#[test]
fn substitution_is_drawn_place_by_place() {
    let roster = vec!["Estelle".to_string(), "Joshua".to_string(), "Estelle".to_string()];
    let pool = vec![character("A", "あ"), character("B", "ぶ"), character("C", "し")];
    let mut differed = false;
    for _ in 0..300 {
        let substitution = draw_substitution(&roster, &pool).unwrap();
        assert_eq!(substitution.len(), 3);
        for (i, r) in substitution.iter().enumerate() {
            assert_eq!(r.original, roster[i]);
            assert!(pool
                .iter()
                .any(|c| c.eng_chr_name == r.eng_chr_name && c.jpn_chr_name == r.jpn_chr_name));
        }
        if substitution[0].eng_chr_name != substitution[2].eng_chr_name {
            differed = true;
        }
    }
    assert!(differed);
}

#[test]
fn pool_of_one_recasts_every_line() {
    let pool = vec![character("A", "あ")];
    let files = vec![file("c0100", &["Estelle", "Joshua"], &[])];
    let scene = vec![
        line(1, "Estelle", "エステル"),
        line(2, "Joshua", "ヨシュア"),
        line(3, "Estelle", "エステル"),
    ];
    let run = SceneRandomizer::new(Some(pool), Some(1), None).start();
    let run = match run.step(Reply::Files(files)) {
        Outcome::Continue(run) => run,
        other => panic!("{:?}", other),
    };
    assert_eq!(run.request(), Request::Scene { game_id: 1, fname: "c0100".to_string() });
    assert_eq!(
        run.step(Reply::Scene(scene.clone())),
        Outcome::Done(vec![
            with_speaker(scene[0].clone(), "A", "あ"),
            with_speaker(scene[1].clone(), "A", "あ"),
            with_speaker(scene[2].clone(), "A", "あ"),
        ])
    );
}

#[test]
fn speaker_is_found_by_either_name() {
    let substitution = vec![replacement("Estelle", "A", "あ"), replacement("ヨシュア", "B", "ぶ")];
    assert_eq!(speaker_position(&substitution, &line(1, "Estelle", "エステル")), Some(0));
    assert_eq!(speaker_position(&substitution, &line(1, "Joshua", "ヨシュア")), Some(1));
    assert_eq!(speaker_position(&substitution, &line(1, "Olivier", "オリビエ")), None);
    assert_eq!(speaker_position(&vec![], &line(1, "Estelle", "エステル")), None);
}

#[test]
fn speaker_takes_its_first_place() {
    let substitution = vec![
        replacement("Joshua", "A", "あ"),
        replacement("Estelle", "B", "ぶ"),
        replacement("Estelle", "C", "し"),
    ];
    let estelle = line(1, "Estelle", "エステル");
    assert_eq!(speaker_position(&substitution, &estelle), Some(1));
    assert_eq!(
        rewrite_scene(&vec![estelle.clone(), estelle.clone()], &substitution),
        Ok(vec![with_speaker(estelle.clone(), "B", "ぶ"), with_speaker(estelle, "B", "ぶ")])
    );
}

#[test]
fn rewritten_line_changes_only_the_speaker() {
    let before = line(5, "Estelle", "エステル");
    let after = rewrite_line(&before, &replacement("Estelle", "A", "あ"));
    assert_eq!(after.eng_chr_name, "A");
    assert_eq!(after.jpn_chr_name, "あ");
    assert_eq!(after.game_id, before.game_id);
    assert_eq!(after.fname, before.fname);
    assert_eq!(after.scene, before.scene);
    assert_eq!(after.row, before.row);
    assert_eq!(after.eng_search_text, before.eng_search_text);
    assert_eq!(after.jpn_search_text, before.jpn_search_text);
    assert_eq!(after.jpn_html_text, before.jpn_html_text);
    assert_eq!(after.op_name, before.op_name);
    assert_eq!(after.pc_icon_html, before.pc_icon_html);
    assert_eq!(after.evo_icon_html, before.evo_icon_html);
}

#[test]
fn rewritten_scene_keeps_length_and_order() {
    let substitution = vec![replacement("Estelle", "A", "あ"), replacement("Joshua", "B", "ぶ")];
    let scene = vec![
        line(1, "Joshua", "ヨシュア"),
        line(2, "Estelle", "エステル"),
        line(3, "Joshua", "ヨシュア"),
        line(4, "Joshua", "ヨシュア"),
    ];
    assert_eq!(
        rewrite_scene(&scene, &substitution),
        Ok(vec![
            with_speaker(scene[0].clone(), "B", "ぶ"),
            with_speaker(scene[1].clone(), "A", "あ"),
            with_speaker(scene[2].clone(), "B", "ぶ"),
            with_speaker(scene[3].clone(), "B", "ぶ"),
        ])
    );
    assert_eq!(rewrite_scene(&vec![], &substitution), Ok(vec![]));
}

#[test]
fn speaker_not_in_file_roster() {
    let substitution = vec![replacement("Estelle", "A", "あ")];
    let scene = vec![line(1, "Estelle", "エステル"), line(2, "Joshua", "ヨシュア")];
    assert_eq!(rewrite_scene(&scene, &substitution), Err(RandomizeError::SpeakerNotInFileRoster));
    let run = Run::AwaitingScene { game_id: 1, fname: "c0100".to_string(), substitution };
    assert_eq!(
        run.step(Reply::Scene(scene)),
        Outcome::Failed(RandomizeError::SpeakerNotInFileRoster)
    );
}

#[test]
fn an_unasked_list_leaves_the_run_where_it_is() {
    let runs = vec![
        Run::AwaitingGames { fname: None, characters: None },
        Run::AwaitingFiles { game_id: 1, fname: Some("c0100".to_string()), characters: None },
        Run::AwaitingCharacters { game_id: 1, file: file("c0100", &["Estelle"], &[]) },
        Run::AwaitingScene {
            game_id: 1,
            fname: "c0100".to_string(),
            substitution: vec![replacement("Estelle", "A", "あ")],
        },
    ];
    let replies = vec![
        Reply::Games(vec![game(1)]),
        Reply::Files(vec![file("c0100", &["Estelle"], &[])]),
        Reply::Characters(vec![character("A", "あ")]),
        Reply::Scene(vec![line(1, "Estelle", "エステル")]),
    ];
    for (i, run) in runs.iter().enumerate() {
        for (j, reply) in replies.iter().enumerate() {
            if i != j {
                assert_eq!(run.clone().step(reply.clone()), Outcome::Continue(run.clone()));
            }
        }
    }
}

#[test]
fn fetched_pool_is_drawn_from() {
    let pool = vec![character("A", "あ"), character("B", "ぶ")];
    let run =
        Run::AwaitingCharacters { game_id: 2, file: file("c0100", &["Estelle", "Joshua"], &[]) };
    match run.step(Reply::Characters(pool.clone())) {
        Outcome::Continue(Run::AwaitingScene { game_id, fname, substitution }) => {
            assert_eq!(game_id, 2);
            assert_eq!(fname, "c0100");
            assert_eq!(substitution.len(), 2);
            assert_eq!(substitution[0].original, "Estelle");
            assert_eq!(substitution[1].original, "Joshua");
            for r in substitution.iter() {
                assert!(pool
                    .iter()
                    .any(|c| c.eng_chr_name == r.eng_chr_name && c.jpn_chr_name == r.jpn_chr_name));
            }
        }
        other => panic!("{:?}", other),
    }
}

#[test]
fn end_to_end_scene_is_recast_from_the_pool() {
    let games = vec![game(1)];
    let files = vec![file("c0100", &["Estelle", "Joshua"], &[])];
    let pool = vec![character("A", "あ"), character("B", "ぶ")];
    let scene = vec![line(1, "Estelle", "エステル"), line(2, "Joshua", "ヨシュア")];
    let mut pairs = std::collections::BTreeSet::new();
    for _ in 0..400 {
        let mut run = SceneRandomizer::new(Some(pool.clone()), None, None).start();
        let mut asked = vec![];
        let out = loop {
            let request = run.request();
            let reply = match &request {
                Request::Games => Reply::Games(games.clone()),
                Request::Files { game_id } => {
                    assert_eq!(*game_id, 1);
                    Reply::Files(files.clone())
                }
                Request::Characters { .. } => panic!("a pool was configured"),
                Request::Scene { game_id, fname } => {
                    assert_eq!(*game_id, 1);
                    assert_eq!(fname, "c0100");
                    Reply::Scene(scene.clone())
                }
            };
            asked.push(request);
            match run.step(reply) {
                Outcome::Continue(next) => run = next,
                Outcome::Done(out) => break out,
                Outcome::Failed(error) => panic!("{:?}", error),
            }
        };
        assert_eq!(
            asked,
            vec![
                Request::Games,
                Request::Files { game_id: 1 },
                Request::Scene { game_id: 1, fname: "c0100".to_string() }
            ]
        );
        assert_eq!(out.len(), 2);
        for (before, after) in scene.iter().zip(out.iter()) {
            assert!(is_one_of(after, &pool));
            assert_eq!(
                &with_speaker(before.clone(), &after.eng_chr_name, &after.jpn_chr_name),
                after
            );
        }
        pairs.insert((out[0].eng_chr_name.clone(), out[1].eng_chr_name.clone()));
    }
    assert_eq!(pairs.len(), 4);
}

#[test]
fn end_to_end_without_a_pool_asks_for_five_hundred_characters() {
    let run = SceneRandomizer::new(None, Some(4), None).start();
    let run = match run.step(Reply::Files(vec![file("c0100", &["Estelle"], &[])])) {
        Outcome::Continue(run) => run,
        other => panic!("{:?}", other),
    };
    assert_eq!(run.request(), Request::Characters { game_id: 4, page_size: 500 });
    let run = match run.step(Reply::Characters(vec![character("A", "あ")])) {
        Outcome::Continue(run) => run,
        other => panic!("{:?}", other),
    };
    assert_eq!(run.request(), Request::Scene { game_id: 4, fname: "c0100".to_string() });
    let scene = vec![line(1, "Estelle", "エステル")];
    assert_eq!(
        run.step(Reply::Scene(scene.clone())),
        Outcome::Done(vec![with_speaker(scene[0].clone(), "A", "あ")])
    );
}

#[test]
fn replacement_may_be_the_original_speaker() {
    let pool = vec![character("Estelle", "エステル")];
    let substitution = draw_substitution(&vec!["Estelle".to_string()], &pool).unwrap();
    assert_eq!(substitution, vec![replacement("Estelle", "Estelle", "エステル")]);
    let scene = vec![line(1, "Estelle", "エステル")];
    assert_eq!(rewrite_scene(&scene, &substitution), Ok(scene.clone()));
}

fn served(randomizer: SceneRandomizer) -> Result<Vec<Script>, RandomizeError> {
    let games = vec![game(1), game(4)];
    let pool = vec![character("A", "あ"), character("B", "ぶ"), character("C", "し")];
    let mut run = randomizer.start();
    loop {
        let reply = match run.request() {
            Request::Games => Reply::Games(games.clone()),
            Request::Files { game_id } => {
                let mut files = vec![
                    file("c0000", &[], &[]),
                    file("c0100", &["Estelle", "Joshua"], &["エステル", "ヨシュア"]),
                ];
                for f in files.iter_mut() {
                    f.game_id = game_id;
                }
                Reply::Files(files)
            }
            Request::Characters { game_id, page_size } => {
                assert!(game_id == 1 || game_id == 4);
                assert_eq!(page_size, 500);
                Reply::Characters(pool.clone())
            }
            Request::Scene { game_id, fname } => {
                assert_eq!(fname, "c0100");
                let mut scene = vec![
                    line(1, "Estelle", "エステル"),
                    line(2, "Joshua", "ヨシュア"),
                    line(3, "Estelle", "エステル"),
                ];
                for l in scene.iter_mut() {
                    l.game_id = game_id;
                }
                Reply::Scene(scene)
            }
        };
        match run.step(reply) {
            Outcome::Continue(next) => run = next,
            Outcome::Done(scene) => return Ok(scene),
            Outcome::Failed(error) => return Err(error),
        }
    }
}

#[test]
fn randomize_scene_test_none() {
    let random_scene: SceneRandomizer = SceneRandomizer::default();
    let scene = served(random_scene);
    assert!(scene.is_ok());
}

#[test]
fn randomize_scene_test_characters() {
    let characters = vec![character("X", "え"), character("Y", "わ")];
    let random_scene: SceneRandomizer = SceneRandomizer::new(Some(characters.clone()), None, None);
    let scene = served(random_scene);
    assert!(scene.is_ok());
    assert!(scene.unwrap().iter().all(|l| is_one_of(l, &characters)));
}

#[test]
fn randomize_scene_test_game() {
    let random_scene: SceneRandomizer = SceneRandomizer::new(None, Some(4), None);
    let scene = served(random_scene);
    assert!(scene.is_ok());
    assert!(scene.unwrap().iter().all(|l| l.game_id == 4));
}

#[test]
fn recasting_replayed_with_chosen_draws() {
    let pool = vec![character("A", "あ"), character("B", "ぶ")];
    let listed = file("c0100", &["Estelle", "Joshua"], &[]);
    let roster = original_roster(&listed);
    let game_id = chosen_game(Some(&game(1))).unwrap();
    let place = chosen_file(Some(&0)).unwrap();
    assert_eq!((game_id, place), (1, 0));
    let substitution = vec![
        replacement_of(&roster[0], Some(&pool[1])).unwrap(),
        replacement_of(&roster[1], Some(&pool[0])).unwrap(),
    ];
    assert_eq!(
        substitution,
        vec![replacement("Estelle", "B", "ぶ"), replacement("Joshua", "A", "あ")]
    );
    let run = Run::AwaitingScene { game_id, fname: listed.fname.clone(), substitution };
    let scene = vec![line(1, "Estelle", "エステル"), line(2, "Joshua", "ヨシュア")];
    assert_eq!(
        run.step(Reply::Scene(scene.clone())),
        Outcome::Done(vec![
            with_speaker(scene[0].clone(), "B", "ぶ"),
            with_speaker(scene[1].clone(), "A", "あ"),
        ])
    );
}
