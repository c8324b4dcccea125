use img_visualizer::export::{load_json_and_update, DiskStore};
use img_visualizer::message::{msg_check, ImageStepMessage, Message, ThemeType};
use img_visualizer::record::Properties;
use img_visualizer::scanner::{DirectoryEntry, DirectoryListing, EntryStatus};
use img_visualizer::step::Step;
use img_visualizer::steps::{Action, FolderChoice, Steps};
use img_visualizer::store::{init_json_obj, AnnotatedStore};
use img_visualizer::visualizer::FolderVisualizer;

fn listing(names: &[&str]) -> DirectoryListing {
    DirectoryListing::Entries(
        names
            .iter()
            .map(|n| DirectoryEntry { path: format!("pics/{}", n), status: EntryStatus::PlainFile })
            .collect(),
    )
}

fn choice(folder: &str, names: &[&str]) -> Option<FolderChoice> {
    Some(FolderChoice { folder_path: folder.to_string(), listing: listing(names) })
}

fn opened(names: &[&str]) -> Steps {
    let mut steps = Steps::new("".to_string(), 0, vec![], vec![], init_json_obj("".to_string(), vec![]));
    steps.folder_chosen(choice("pics", names));
    steps
}

fn records(steps: &Steps) -> Vec<Properties> {
    steps.json_obj().get(steps.folder_path()).unwrap().clone()
}

fn annotations(steps: &Steps) -> Vec<Option<bool>> {
    records(steps).iter().map(|r| r.annotation).collect()
}

fn comments(steps: &Steps) -> Vec<Option<String>> {
    records(steps).iter().map(|r| r.comments.clone()).collect()
}

#[test]
fn steps_go_from_welcome_over_images_to_end() {
    assert!(Step::WelcomeWithFolderChoose.can_continue());
    assert!(Step::Images.can_continue());
    assert!(!Step::End.can_continue());
    assert_eq!(Step::WelcomeWithFolderChoose.title(), "Welcome");
    assert_eq!(Step::Images.title(), "Images");
    assert_eq!(Step::End.title(), "End");
}

#[test]
fn every_draft_may_be_sent() {
    assert_eq!(msg_check("blurry".to_string()), Some("blurry".to_string()));
    assert_eq!(msg_check(String::new()), Some(String::new()));
}

#[test]
fn new_session_starts_on_the_first_step() {
    let store = init_json_obj("f".to_string(), vec!["f/a".to_string()]);
    let steps = Steps::new("f".to_string(), 0, vec!["f/a".to_string()], vec![None], store.clone());
    assert_eq!(steps.current(), 0);
    assert_eq!(steps.current_step(), Step::WelcomeWithFolderChoose);
    assert_eq!(steps.title(), "Welcome");
    assert_eq!(steps.folder_path(), "f");
    assert_eq!(steps.curr_idx(), 0);
    assert_eq!(steps.all_images(), &vec!["f/a".to_string()]);
    assert_eq!(steps.correct_items(), &vec![None]);
    assert_eq!(steps.json_obj(), &store);
    assert_eq!(steps.new_message(), "");
    assert!(!steps.incorrect_btn_clicked());
    assert_eq!(steps.theme(), ThemeType::Dark);
    assert!(!steps.folder_found());
    assert!(!steps.has_previous());
    assert!(steps.can_continue());
}

#[test]
fn advance_stops_at_the_end() {
    let mut steps = opened(&["a"]);
    steps.advance();
    assert_eq!(steps.current_step(), Step::Images);
    assert_eq!(steps.title(), "Images");
    assert!(steps.can_continue());
    assert!(steps.has_previous());
    steps.advance();
    assert_eq!(steps.current_step(), Step::End);
    assert_eq!(steps.title(), "End");
    assert!(!steps.can_continue());
    steps.advance();
    assert_eq!(steps.current(), 2);
    assert_eq!(steps.current_step(), Step::End);
}

#[test]
fn go_back_stops_at_the_first_step() {
    let mut steps = opened(&["a"]);
    steps.go_back();
    assert_eq!(steps.current(), 0);
    assert!(steps.folder_found());
}

#[test]
fn going_back_from_the_images_gives_the_folder_up() {
    let mut steps = opened(&["a"]);
    steps.advance();
    assert!(steps.folder_found());
    steps.go_back();
    assert_eq!(steps.current_step(), Step::WelcomeWithFolderChoose);
    assert!(!steps.folder_found());
    // the records stay
    assert_eq!(steps.folder_path(), "pics");
    assert_eq!(annotations(&steps), vec![None]);
}

#[test]
fn going_back_from_the_end_keeps_the_folder() {
    let mut steps = opened(&["a"]);
    steps.advance();
    steps.advance();
    steps.go_back();
    assert_eq!(steps.current_step(), Step::Images);
    assert!(steps.folder_found());
}

#[test]
fn choosing_a_folder_starts_at_its_first_image() {
    let mut steps = opened(&["a", "b"]);
    steps.update(ImageStepMessage::Next());
    steps.update(ImageStepMessage::MarkAsIncorrect());
    steps.update(ImageStepMessage::CommentType("half".to_string()));
    steps.advance();
    steps.update(ImageStepMessage::ThemeChanged(ThemeType::Light));
    steps.folder_chosen(Some(FolderChoice {
        folder_path: "other".to_string(),
        listing: DirectoryListing::Entries(vec![
            DirectoryEntry { path: "other/sub".to_string(), status: EntryStatus::Directory },
            DirectoryEntry { path: "other/1.png".to_string(), status: EntryStatus::PlainFile },
            DirectoryEntry { path: "other/2.png".to_string(), status: EntryStatus::PlainFile },
            DirectoryEntry { path: "other/3.png".to_string(), status: EntryStatus::PlainFile },
        ]),
    }));
    assert_eq!(steps.folder_path(), "other");
    assert_eq!(steps.curr_idx(), 0);
    assert_eq!(
        steps.all_images(),
        &vec!["other/1.png".to_string(), "other/2.png".to_string(), "other/3.png".to_string()]
    );
    assert_eq!(steps.correct_items(), &vec![None, None, None]);
    assert_eq!(steps.json_obj().len(), 1);
    assert_eq!(annotations(&steps), vec![None, None, None]);
    assert_eq!(comments(&steps), vec![None, None, None]);
    assert!(steps.folder_found());
    assert!(!steps.incorrect_btn_clicked());
    assert_eq!(steps.new_message(), "");
    // the step and the theme stay
    assert_eq!(steps.current_step(), Step::Images);
    assert_eq!(steps.theme(), ThemeType::Light);
}

#[test]
fn choosing_an_unreadable_folder_gives_an_empty_session() {
    let mut steps = opened(&["a"]);
    steps.folder_chosen(Some(FolderChoice {
        folder_path: "nowhere".to_string(),
        listing: DirectoryListing::Unreadable,
    }));
    assert_eq!(steps.folder_path(), "nowhere");
    assert!(steps.all_images().is_empty());
    assert!(steps.correct_items().is_empty());
    assert!(records(&steps).is_empty());
    assert!(steps.folder_found());
    assert!(steps.current_image().is_none());
}

#[test]
fn cancelled_choice_changes_nothing_but_the_folder_flag() {
    let mut steps = opened(&["a", "b", "c"]);
    steps.update(ImageStepMessage::Next());
    steps.update(ImageStepMessage::MarkAsIncorrect());
    steps.update(ImageStepMessage::CommentType("dra".to_string()));
    let before_records = records(&steps);
    let before_items = steps.correct_items().clone();
    assert!(matches!(steps.update(ImageStepMessage::ChooseFolderPath()), Action::PickFolder));
    assert!(steps.folder_found());
    steps.folder_chosen(None);
    assert!(!steps.folder_found());
    assert_eq!(steps.curr_idx(), 1);
    assert_eq!(steps.folder_path(), "pics");
    assert_eq!(steps.all_images().len(), 3);
    assert_eq!(records(&steps), before_records);
    assert_eq!(steps.correct_items(), &before_items);
    assert!(steps.incorrect_btn_clicked());
    assert_eq!(steps.new_message(), "dra");
}

#[test]
fn choose_folder_path_leaves_the_state_to_the_dialog() {
    let mut steps = opened(&["a"]);
    steps.update(ImageStepMessage::MarkAsCorrect());
    let before = records(&steps);
    assert!(matches!(steps.update(ImageStepMessage::ChooseFolderPath()), Action::PickFolder));
    assert_eq!(records(&steps), before);
    assert_eq!(steps.curr_idx(), 0);
    assert!(steps.folder_found());
}

#[test]
fn next_and_previous_move_by_one_and_close_the_comment_entry() {
    let mut steps = opened(&["a", "b", "c"]);
    assert!(!steps.is_previous_image_available());
    assert!(steps.is_next_image_available());
    steps.update(ImageStepMessage::MarkAsIncorrect());
    steps.update(ImageStepMessage::CommentType("x".to_string()));
    assert!(matches!(steps.update(ImageStepMessage::Next()), Action::Nothing));
    assert_eq!(steps.curr_idx(), 1);
    assert!(!steps.incorrect_btn_clicked());
    assert_eq!(steps.new_message(), "");
    assert!(steps.is_previous_image_available());
    assert!(steps.is_next_image_available());
    steps.update(ImageStepMessage::Next());
    assert_eq!(steps.curr_idx(), 2);
    assert!(!steps.is_next_image_available());
    steps.update(ImageStepMessage::MarkAsIncorrect());
    steps.update(ImageStepMessage::CommentType("y".to_string()));
    assert!(matches!(steps.update(ImageStepMessage::Previous()), Action::Nothing));
    assert_eq!(steps.curr_idx(), 1);
    assert!(!steps.incorrect_btn_clicked());
    assert_eq!(steps.new_message(), "");
    // moving records nothing
    assert_eq!(annotations(&steps), vec![Some(false), None, Some(false)]);
    assert_eq!(comments(&steps), vec![None, None, None]);
}

#[test]
fn previous_at_the_first_image_stays_there() {
    let mut steps = opened(&["a", "b"]);
    steps.update(ImageStepMessage::Previous());
    assert_eq!(steps.curr_idx(), 0);
    steps.update(ImageStepMessage::Previous());
    assert_eq!(steps.curr_idx(), 0);
    let mut empty = opened(&[]);
    empty.update(ImageStepMessage::Previous());
    assert_eq!(empty.curr_idx(), 0);
}

#[test]
fn next_at_the_largest_position_stays_there() {
    let mut steps = Steps::new(
        "f".to_string(),
        usize::MAX - 1,
        vec![],
        vec![],
        init_json_obj("f".to_string(), vec![]),
    );
    steps.update(ImageStepMessage::Next());
    assert_eq!(steps.curr_idx(), usize::MAX);
    steps.update(ImageStepMessage::Next());
    assert_eq!(steps.curr_idx(), usize::MAX);
    assert!(!steps.is_next_image_available());
}

#[test]
fn next_past_the_last_image_leaves_the_records_alone() {
    let mut steps = opened(&["a"]);
    steps.update(ImageStepMessage::Next());
    assert_eq!(steps.curr_idx(), 1);
    assert!(steps.current_image().is_none());
    steps.update(ImageStepMessage::MarkAsCorrect());
    steps.update(ImageStepMessage::MarkAsIncorrect());
    steps.update(ImageStepMessage::CommentAdded("lost".to_string()));
    assert_eq!(annotations(&steps), vec![None]);
    assert_eq!(comments(&steps), vec![None]);
    assert_eq!(steps.correct_items(), &vec![None]);
    assert!(!steps.incorrect_btn_clicked());
}

#[test]
fn mark_as_correct_sets_the_annotation_and_drops_the_reason() {
    let mut steps = opened(&["a", "b"]);
    steps.update(ImageStepMessage::MarkAsIncorrect());
    steps.update(ImageStepMessage::CommentAdded("blurry".to_string()));
    steps.update(ImageStepMessage::MarkAsIncorrect());
    assert!(steps.incorrect_btn_clicked());
    assert!(matches!(steps.update(ImageStepMessage::MarkAsCorrect()), Action::Nothing));
    assert_eq!(annotations(&steps), vec![Some(true), None]);
    assert_eq!(comments(&steps), vec![None, None]);
    assert_eq!(steps.correct_items(), &vec![Some(true), None]);
    assert!(!steps.incorrect_btn_clicked());
    assert_eq!(steps.new_message(), "");
}

#[test]
fn mark_as_correct_twice_is_as_once() {
    let mut steps = opened(&["a", "b"]);
    steps.update(ImageStepMessage::Next());
    steps.update(ImageStepMessage::MarkAsCorrect());
    let once_records = records(&steps);
    let once_items = steps.correct_items().clone();
    steps.update(ImageStepMessage::MarkAsCorrect());
    assert_eq!(records(&steps), once_records);
    assert_eq!(steps.correct_items(), &once_items);
    assert_eq!(annotations(&steps), vec![None, Some(true)]);
    assert_eq!(steps.curr_idx(), 1);
    assert!(!steps.incorrect_btn_clicked());
    assert_eq!(steps.new_message(), "");
}

#[test]
fn mark_as_incorrect_twice_and_reset_twice_are_as_once() {
    let mut steps = opened(&["a"]);
    steps.update(ImageStepMessage::MarkAsIncorrect());
    let once = records(&steps);
    steps.update(ImageStepMessage::MarkAsIncorrect());
    assert_eq!(records(&steps), once);
    assert_eq!(annotations(&steps), vec![Some(false)]);
    steps.update(ImageStepMessage::ResetSelection());
    let once = records(&steps);
    steps.update(ImageStepMessage::ResetSelection());
    assert_eq!(records(&steps), once);
    assert_eq!(annotations(&steps), vec![None]);
}

#[test]
fn mark_as_incorrect_opens_the_comment_entry_and_keeps_the_reason() {
    let mut steps = opened(&["a", "b"]);
    assert!(matches!(steps.update(ImageStepMessage::MarkAsIncorrect()), Action::Nothing));
    assert!(steps.incorrect_btn_clicked());
    assert_eq!(steps.new_message(), "");
    assert_eq!(annotations(&steps), vec![Some(false), None]);
    assert_eq!(steps.correct_items(), &vec![Some(false), None]);
    steps.update(ImageStepMessage::CommentAdded("too dark".to_string()));
    assert!(!steps.incorrect_btn_clicked());
    steps.update(ImageStepMessage::Next());
    steps.update(ImageStepMessage::Previous());
    steps.update(ImageStepMessage::MarkAsIncorrect());
    assert!(steps.incorrect_btn_clicked());
    assert_eq!(comments(&steps), vec![Some("too dark".to_string()), None]);
    // the entry opens on the reason that is recorded
    assert_eq!(steps.new_message(), "too dark");
}

#[test]
fn reset_selection_unsets_the_annotation_and_keeps_the_reason() {
    let mut steps = opened(&["a"]);
    steps.update(ImageStepMessage::MarkAsIncorrect());
    steps.update(ImageStepMessage::CommentAdded("why".to_string()));
    steps.update(ImageStepMessage::MarkAsIncorrect());
    assert!(matches!(steps.update(ImageStepMessage::ResetSelection()), Action::Nothing));
    assert_eq!(annotations(&steps), vec![None]);
    assert_eq!(steps.correct_items(), &vec![None]);
    assert_eq!(comments(&steps), vec![Some("why".to_string())]);
    assert!(!steps.incorrect_btn_clicked());
    assert_eq!(steps.new_message(), "why");
}

#[test]
fn classification_without_an_image_changes_nothing() {
    let mut steps = opened(&[]);
    steps.update(ImageStepMessage::CommentType("kept".to_string()));
    for msg in [
        ImageStepMessage::MarkAsCorrect(),
        ImageStepMessage::MarkAsIncorrect(),
        ImageStepMessage::ResetSelection(),
    ] {
        assert!(matches!(steps.update(msg), Action::Nothing));
        assert!(records(&steps).is_empty());
        assert!(steps.correct_items().is_empty());
        assert!(!steps.incorrect_btn_clicked());
        assert_eq!(steps.new_message(), "kept");
        assert_eq!(steps.curr_idx(), 0);
    }
}

#[test]
fn comment_typed_changes_the_draft_only() {
    let mut steps = opened(&["a"]);
    steps.update(ImageStepMessage::MarkAsIncorrect());
    let before = records(&steps);
    assert!(matches!(steps.update(ImageStepMessage::CommentType("bl".to_string())), Action::Nothing));
    assert_eq!(steps.new_message(), "bl");
    steps.update(ImageStepMessage::CommentType("blu".to_string()));
    assert_eq!(steps.new_message(), "blu");
    assert_eq!(records(&steps), before);
    assert!(steps.incorrect_btn_clicked());
}

#[test]
fn comment_added_records_the_reason_and_closes_the_entry() {
    let mut steps = opened(&["a", "b"]);
    steps.update(ImageStepMessage::Next());
    steps.update(ImageStepMessage::MarkAsIncorrect());
    steps.update(ImageStepMessage::CommentType("blurry".to_string()));
    assert!(matches!(steps.update(ImageStepMessage::CommentAdded("blurry".to_string())), Action::Nothing));
    assert_eq!(comments(&steps), vec![None, Some("blurry".to_string())]);
    assert_eq!(annotations(&steps), vec![None, Some(false)]);
    assert!(!steps.incorrect_btn_clicked());
    assert_eq!(steps.new_message(), "");
}

#[test]
fn comment_is_recorded_whatever_the_annotation() {
    let mut steps = opened(&["a"]);
    steps.update(ImageStepMessage::CommentAdded("note".to_string()));
    assert_eq!(annotations(&steps), vec![None]);
    assert_eq!(comments(&steps), vec![Some("note".to_string())]);
}

#[test]
fn theme_changed_changes_the_theme_only() {
    let mut steps = opened(&["a"]);
    steps.update(ImageStepMessage::MarkAsIncorrect());
    steps.update(ImageStepMessage::CommentType("typing".to_string()));
    let before = records(&steps);
    assert!(matches!(steps.update(ImageStepMessage::ThemeChanged(ThemeType::Custom)), Action::Nothing));
    assert_eq!(steps.theme(), ThemeType::Custom);
    assert_eq!(records(&steps), before);
    assert_eq!(steps.new_message(), "typing");
    assert!(steps.incorrect_btn_clicked());
    assert_eq!(steps.curr_idx(), 0);
}

#[test]
fn export_hands_out_the_records_and_keeps_them() {
    let mut steps = opened(&["a", "b"]);
    steps.update(ImageStepMessage::MarkAsCorrect());
    steps.update(ImageStepMessage::Next());
    let before = steps.json_obj().clone();
    match steps.update(ImageStepMessage::Export()) {
        Action::Export(fragment) => assert_eq!(fragment, before),
        other => panic!("unexpected: {:?}", other),
    }
    assert_eq!(steps.json_obj(), &before);
    assert_eq!(steps.curr_idx(), 1);
    assert_eq!(steps.folder_path(), "pics");
    assert_eq!(steps.current(), 0);
    assert!(steps.folder_found());
}

#[test]
fn export_closes_the_comment_entry() {
    let mut steps = opened(&["a"]);
    steps.update(ImageStepMessage::MarkAsIncorrect());
    steps.update(ImageStepMessage::CommentAdded("dark".to_string()));
    steps.update(ImageStepMessage::MarkAsIncorrect());
    steps.update(ImageStepMessage::CommentType("darker".to_string()));
    steps.update(ImageStepMessage::Export());
    assert!(!steps.incorrect_btn_clicked());
    assert_eq!(steps.new_message(), "dark");
    assert_eq!(comments(&steps), vec![Some("dark".to_string())]);
}

#[test]
fn export_of_an_empty_folder_works() {
    let mut steps = opened(&[]);
    match steps.update(ImageStepMessage::Export()) {
        Action::Export(fragment) => {
            assert_eq!(fragment.len(), 1);
            assert!(fragment.get(&"pics".to_string()).unwrap().is_empty());
        },
        other => panic!("unexpected: {:?}", other),
    }
    assert_eq!(steps.new_message(), "");
}

#[test]
fn records_stay_in_step_with_the_images() {
    let mut steps = opened(&["a", "b", "c"]);
    let msgs = vec![
        ImageStepMessage::MarkAsIncorrect(),
        ImageStepMessage::CommentType("x".to_string()),
        ImageStepMessage::CommentAdded("x".to_string()),
        ImageStepMessage::Next(),
        ImageStepMessage::MarkAsCorrect(),
        ImageStepMessage::Next(),
        ImageStepMessage::Next(),
        ImageStepMessage::MarkAsCorrect(),
        ImageStepMessage::Previous(),
        ImageStepMessage::ResetSelection(),
        ImageStepMessage::Export(),
        ImageStepMessage::ThemeChanged(ThemeType::Light),
        ImageStepMessage::ChooseFolderPath(),
    ];
    for msg in msgs {
        steps.update(msg);
        let recs = records(&steps);
        assert_eq!(steps.json_obj().len(), 1);
        assert_eq!(recs.len(), steps.all_images().len());
        assert_eq!(steps.correct_items().len(), steps.all_images().len());
        for (i, r) in recs.iter().enumerate() {
            assert_eq!(r.index, i);
            assert_eq!(&r.image_path, &steps.all_images()[i]);
            assert_eq!(r.annotation, steps.correct_items()[i]);
        }
    }
    assert_eq!(annotations(&steps), vec![Some(false), Some(true), None]);
}

#[test]
fn three_images_from_choice_to_export() {
    let mut app = FolderVisualizer::new();
    assert!(matches!(
        app.update(Message::ImageStepMessage(ImageStepMessage::ChooseFolderPath())),
        Action::PickFolder
    ));
    app.folder_chosen(choice("pics", &["1.png", "2.png", "3.png"]));
    assert_eq!(app.steps().curr_idx(), 0);
    assert!(app.steps().folder_found());
    assert_eq!(annotations(app.steps()), vec![None, None, None]);

    app.update(Message::ImageStepMessage(ImageStepMessage::MarkAsIncorrect()));
    assert!(app.steps().incorrect_btn_clicked());

    app.update(Message::ImageStepMessage(ImageStepMessage::CommentAdded("blurry".to_string())));
    let first = records(app.steps())[0].clone();
    assert_eq!(first.annotation, Some(false));
    assert_eq!(first.comments, Some("blurry".to_string()));

    app.update(Message::ImageStepMessage(ImageStepMessage::Next()));
    assert_eq!(app.steps().curr_idx(), 1);
    assert!(!app.steps().incorrect_btn_clicked());

    let fragment = match app.update(Message::ImageStepMessage(ImageStepMessage::Export())) {
        Action::Export(fragment) => fragment,
        other => panic!("unexpected: {:?}", other),
    };
    let on_disk = load_json_and_update(DiskStore::Missing, &fragment).unwrap();
    assert_eq!(on_disk.len(), 1);
    let written = on_disk.get(&"pics".to_string()).unwrap();
    assert_eq!(written.len(), 3);
    assert_eq!(written[0], first);
    assert_eq!(written[0].index, 0);
    assert_eq!(written[0].image_path, "pics/1.png");
    for (i, r) in written.iter().enumerate().skip(1) {
        assert_eq!(r.index, i);
        assert_eq!(r.annotation, None);
        assert_eq!(r.comments, None);
    }
}

#[test]
fn switching_folders_drops_what_was_not_exported() {
    let mut steps = opened(&["a"]);
    steps.update(ImageStepMessage::MarkAsCorrect());
    steps.folder_chosen(choice("more", &["b"]));
    steps.folder_chosen(choice("pics", &["a"]));
    assert_eq!(annotations(&steps), vec![None]);
}

#[test]
fn application_starts_on_the_welcome_page_in_the_dark_theme() {
    let app = FolderVisualizer::new();
    assert_eq!(app.title(), "Welcome");
    assert_eq!(app.theme(), ThemeType::Dark);
    assert_eq!(app.steps().theme(), ThemeType::Dark);
    assert_eq!(app.steps().folder_path(), "");
    assert!(app.steps().all_images().is_empty());
    assert!(!app.steps().folder_found());
    let mut expected = AnnotatedStore::new();
    expected.insert(String::new(), vec![]);
    assert_eq!(app.steps().json_obj(), &expected);
}

#[test]
fn application_moves_between_the_steps() {
    let mut app = FolderVisualizer::new();
    app.folder_chosen(choice("pics", &["a"]));
    assert!(matches!(app.update(Message::NextPressed), Action::Nothing));
    assert_eq!(app.title(), "Images");
    app.update(Message::NextPressed);
    assert_eq!(app.title(), "End");
    app.update(Message::NextPressed);
    assert_eq!(app.title(), "End");
    assert!(matches!(app.update(Message::BackPressed), Action::Nothing));
    assert_eq!(app.title(), "Images");
    app.update(Message::BackPressed);
    assert_eq!(app.title(), "Welcome");
    assert!(!app.steps().folder_found());
    app.update(Message::BackPressed);
    assert_eq!(app.title(), "Welcome");
}

#[test]
fn application_follows_the_theme_of_the_session() {
    let mut app = FolderVisualizer::new();
    assert!(matches!(app.update(Message::ThemeChanged(ThemeType::Light)), Action::Nothing));
    assert_eq!(app.theme(), ThemeType::Light);
    assert_eq!(app.steps().theme(), ThemeType::Dark);
    app.update(Message::ImageStepMessage(ImageStepMessage::ThemeChanged(ThemeType::Custom)));
    assert_eq!(app.theme(), ThemeType::Custom);
    assert_eq!(app.steps().theme(), ThemeType::Custom);
    app.update(Message::ThemeChanged(ThemeType::Light));
    app.update(Message::ImageStepMessage(ImageStepMessage::Next()));
    assert_eq!(app.theme(), ThemeType::Custom);
    app.update(Message::ThemeChanged(ThemeType::Light));
    app.folder_chosen(None);
    assert_eq!(app.theme(), ThemeType::Light);
}
