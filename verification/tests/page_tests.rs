use img_visualizer::message::{ImageStepMessage, Message, ThemeType};
use img_visualizer::page::{ImageDisplay, ImageProbe, NextControl, Page, Selection};
use img_visualizer::scanner::{DirectoryEntry, DirectoryListing, EntryStatus};
use img_visualizer::step::Step;
use img_visualizer::steps::{FolderChoice, Steps};
use img_visualizer::store::init_json_obj;
use img_visualizer::visualizer::FolderVisualizer;

const PNG: [u8; 12] = [0x89, b'P', b'N', b'G', 0x0D, 0x0A, 0x1A, 0x0A, 0x00, 0x00, 0x00, 0x0D];

fn choice(names: &[&str]) -> Option<FolderChoice> {
    Some(FolderChoice {
        folder_path: "pics".to_string(),
        listing: DirectoryListing::Entries(
            names
                .iter()
                .map(|n| DirectoryEntry { path: format!("pics/{}", n), status: EntryStatus::PlainFile })
                .collect(),
        ),
    })
}

fn opened(names: &[&str]) -> Steps {
    let mut steps = Steps::new("".to_string(), 0, vec![], vec![], init_json_obj("".to_string(), vec![]));
    steps.folder_chosen(choice(names));
    steps
}

fn png(name: &str) -> ImageProbe {
    ImageProbe { file_name: name.to_string(), header: Ok(PNG.to_vec()) }
}

#[test]
fn selection_in_words() {
    assert_eq!(Selection::NoImage.text(), "No Image");
    assert_eq!(Selection::Correct.text(), "Correct");
    assert_eq!(Selection::Incorrect.text(), "Incorrect");
    assert_eq!(Selection::NotSelected.text(), "Not selected yet");
}

#[test]
fn heading_has_the_given_words() {
    assert_eq!(Step::container_("Anything").title, "Anything");
    assert_eq!(Step::container_("").title, "");
}

#[test]
fn end_page_says_end() {
    assert_eq!(Step::end().title, "End!");
}

#[test]
fn welcome_page_makes_the_folder_choice_primary_until_a_folder_is_chosen() {
    let mut steps = Steps::new("".to_string(), 0, vec![], vec![], init_json_obj("".to_string(), vec![]));
    let page = Step::welcome(&steps);
    assert!(page.select_is_primary);
    assert_eq!(page.theme, ThemeType::Dark);
    steps.folder_chosen(choice(&["a"]));
    steps.update(ImageStepMessage::ThemeChanged(ThemeType::Light));
    let page = Step::welcome(&steps);
    assert!(!page.select_is_primary);
    assert_eq!(page.theme, ThemeType::Light);
    steps.folder_chosen(None);
    assert!(Step::welcome(&steps).select_is_primary);
}

#[test]
fn info_row_counts_from_one() {
    let info = Step::create_info(
        &1,
        &3,
        "pics",
        &[Some(true), Some(false), None],
        "b.png".to_string(),
        &ThemeType::Custom,
    );
    assert_eq!(info.current_item, 2);
    assert_eq!(info.total_images, 3);
    assert_eq!(info.folder_path, "pics");
    assert_eq!(info.image_file_name, "b.png");
    assert_eq!(info.selection, Selection::Incorrect);
    assert_eq!(info.theme, ThemeType::Custom);
}

#[test]
fn info_row_names_the_selection() {
    let items = [Some(true), Some(false), None];
    let selection = |i: usize| Step::create_info(&i, &3, "p", &items, "f".to_string(), &ThemeType::Dark).selection;
    assert_eq!(selection(0), Selection::Correct);
    assert_eq!(selection(1), Selection::Incorrect);
    assert_eq!(selection(2), Selection::NotSelected);
    assert_eq!(selection(3), Selection::NoImage);
    assert_eq!(
        Step::create_info(&0, &0, "p", &[], "f".to_string(), &ThemeType::Dark).selection,
        Selection::NoImage
    );
}

#[test]
fn images_page_shows_the_current_image() {
    let mut steps = opened(&["a.png", "b.png", "c.png"]);
    steps.update(ImageStepMessage::Next());
    steps.update(ImageStepMessage::MarkAsCorrect());
    let page = Step::images(&steps, &ThemeType::Light, png("b.png"));
    assert!(matches!(&page.image, ImageDisplay::Viewer(path) if path == "pics/b.png"));
    assert!(page.comment_entry.is_none());
    assert!(page.previous);
    assert!(page.next);
    assert_eq!(page.theme, ThemeType::Dark);
    assert_eq!(page.info.current_item, 2);
    assert_eq!(page.info.total_images, 3);
    assert_eq!(page.info.folder_path, "pics");
    assert_eq!(page.info.image_file_name, "b.png");
    assert_eq!(page.info.selection, Selection::Correct);
    assert_eq!(page.info.theme, ThemeType::Light);
}

#[test]
fn images_page_hides_the_controls_that_lead_nowhere() {
    let mut steps = opened(&["a.png", "b.png"]);
    let page = Step::images(&steps, &ThemeType::Dark, png("a.png"));
    assert!(!page.previous);
    assert!(page.next);
    steps.update(ImageStepMessage::Next());
    let page = Step::images(&steps, &ThemeType::Dark, png("b.png"));
    assert!(page.previous);
    assert!(!page.next);
    let single = opened(&["only.png"]);
    let page = Step::images(&single, &ThemeType::Dark, png("only.png"));
    assert!(!page.previous);
    assert!(!page.next);
}

#[test]
fn images_page_shows_the_comment_entry_with_the_draft() {
    let mut steps = opened(&["a.png"]);
    steps.update(ImageStepMessage::MarkAsIncorrect());
    steps.update(ImageStepMessage::CommentType("blur".to_string()));
    let page = Step::images(&steps, &ThemeType::Dark, png("a.png"));
    let entry = page.comment_entry.unwrap();
    assert_eq!(entry.draft, "blur");
    assert_eq!(entry.submit, Some("blur".to_string()));
    assert_eq!(page.info.selection, Selection::Incorrect);
    steps.update(ImageStepMessage::CommentAdded("blur".to_string()));
    let page = Step::images(&steps, &ThemeType::Dark, png("a.png"));
    assert!(page.comment_entry.is_none());
}

#[test]
fn images_page_shows_an_error_in_place_of_a_bad_image() {
    let mut steps = opened(&["notes.txt", "b.png"]);
    let probe = ImageProbe { file_name: "notes.txt".to_string(), header: Ok(b"some plain text".to_vec()) };
    let page = Step::images(&steps, &ThemeType::Dark, probe);
    assert!(matches!(
        &page.image,
        ImageDisplay::Error(text) if text == "Invalid file, please check if it is a valid image file!"
    ));
    // the rest of the page is as for any image
    assert!(page.next);
    assert_eq!(page.info.current_item, 1);
    assert_eq!(page.info.image_file_name, "notes.txt");
    assert_eq!(page.info.selection, Selection::NotSelected);
    // and the image can be classified and left
    steps.update(ImageStepMessage::MarkAsIncorrect());
    let probe = ImageProbe { file_name: "notes.txt".to_string(), header: Ok(b"some plain text".to_vec()) };
    assert!(Step::images(&steps, &ThemeType::Dark, probe).comment_entry.is_some());
    steps.update(ImageStepMessage::Next());
    assert_eq!(steps.curr_idx(), 1);
}

#[test]
fn images_page_shows_why_a_file_could_not_be_read() {
    let steps = opened(&["gone.png"]);
    let probe = ImageProbe { file_name: "gone.png".to_string(), header: Err("No such file".to_string()) };
    let page = Step::images(&steps, &ThemeType::Dark, probe);
    assert!(matches!(&page.image, ImageDisplay::Error(text) if text == "No such file"));
}

#[test]
fn each_step_shows_its_page() {
    let steps = opened(&["a.png"]);
    assert!(matches!(Step::WelcomeWithFolderChoose.view(&steps, None), Page::Welcome(_)));
    assert!(matches!(Step::Images.view(&steps, Some(png("a.png"))), Page::Images(_)));
    assert!(matches!(Step::End.view(&steps, None), Page::End(h) if h.title == "End!"));
}

#[test]
fn session_shows_the_page_of_its_step() {
    let mut steps = opened(&["a.png"]);
    assert!(matches!(steps.view(None), Page::Welcome(_)));
    steps.advance();
    match steps.view(Some(png("a.png"))) {
        Page::Images(page) => {
            assert!(matches!(&page.image, ImageDisplay::Viewer(path) if path == "pics/a.png"));
            assert_eq!(page.info.theme, ThemeType::Dark);
        },
        other => panic!("unexpected: {:?}", other),
    }
    steps.advance();
    assert!(matches!(steps.view(None), Page::End(_)));
}

#[test]
fn application_shows_the_step_controls() {
    let mut app = FolderVisualizer::new();
    let shown = app.view(None);
    assert!(!shown.back);
    assert_eq!(shown.next, NextControl::Disabled);
    assert!(matches!(shown.page, Page::Welcome(_)));

    app.folder_chosen(choice(&["a.png"]));
    let shown = app.view(None);
    assert!(!shown.back);
    assert_eq!(shown.next, NextControl::Enabled);

    app.update(Message::NextPressed);
    let shown = app.view(Some(png("a.png")));
    assert!(shown.back);
    assert_eq!(shown.next, NextControl::Enabled);
    assert!(matches!(shown.page, Page::Images(_)));

    app.folder_chosen(None);
    let shown = app.view(Some(png("a.png")));
    assert_eq!(shown.next, NextControl::Disabled);

    app.folder_chosen(choice(&["a.png"]));
    app.update(Message::NextPressed);
    let shown = app.view(None);
    assert!(shown.back);
    assert_eq!(shown.next, NextControl::Hidden);
    assert!(matches!(shown.page, Page::End(_)));
}
