//! What each step shows of a session.

use crate::image::{fetch_image, sniffed_header, ImageError};
use crate::message::{msg_check, ThemeType};
use crate::page::{
    CommentEntry, Heading, ImageDisplay, ImageProbe, ImagesPage, InfoRow, Page, Selection,
    WelcomePage,
};
use crate::step::Step;
use crate::steps::Steps;
use crate::workflow::WorkflowState;
use vstd::prelude::*;

verus! {

/// Whether `page` is the welcome page of the session.
pub open spec fn is_welcome_page(page: WelcomePage, state: WorkflowState) -> bool {
    page.theme == state.theme && page.select_is_primary == !state.folder_found
}

/// Whether `display` is what stands in the place of the image at `path`,
/// given what the shell read from the start of its file: the image where the
/// bytes are those of an image, else the words that say why not.
pub open spec fn is_display_of(
    display: ImageDisplay,
    path: Seq<char>,
    header: Result<Vec<u8>, String>,
) -> bool {
    match sniffed_header(header) {
        Ok(true) => display matches ImageDisplay::Viewer(shown) && shown@ == path,
        Ok(false) => display matches ImageDisplay::Error(text) && text@
            == ImageError::InvalidData.spec_message(),
        Err(reason) => display matches ImageDisplay::Error(text) && text@ == reason@,
    }
}

/// Whether `entry` is the comment entry of the session: open while the
/// annotator gives a reason, with the draft in it, which may be sent as it
/// is.
pub open spec fn is_comment_entry(entry: Option<CommentEntry>, state: WorkflowState) -> bool {
    if state.incorrect_btn_clicked {
        &&& entry matches Some(open)
        &&& open.draft@ == state.new_message
        &&& open.submit matches Some(reason)
        &&& reason@ == state.new_message
    } else {
        entry is None
    }
}

/// Whether `info` states the given facts.
pub open spec fn is_info_row(
    info: InfoRow,
    curr_idx: usize,
    len_images: usize,
    folder_path: Seq<char>,
    correct_items: Seq<Option<bool>>,
    image_file_name: Seq<char>,
    theme: ThemeType,
) -> bool {
    &&& info.current_item == curr_idx + 1
    &&& info.total_images == len_images
    &&& info.folder_path@ == folder_path
    &&& info.image_file_name@ == image_file_name
    &&& info.selection == Selection::of(correct_items, curr_idx as int)
    &&& info.theme == theme
}

/// Whether `page` is the images page of the session in the given theme,
/// given what the shell found out of the current image's file.
pub open spec fn is_images_page(
    page: ImagesPage,
    state: WorkflowState,
    theme: ThemeType,
    probe: ImageProbe,
) -> bool {
    &&& page.theme == state.theme
    &&& is_display_of(page.image, state.all_images[state.curr_idx as int], probe.header)
    &&& is_comment_entry(page.comment_entry, state)
    &&& is_info_row(
        page.info,
        state.curr_idx,
        state.all_images.len() as usize,
        state.folder_path,
        state.correct_items,
        probe.file_name@,
        theme,
    )
    &&& page.previous == state.is_previous_image_available()
    &&& page.next == state.is_next_image_available()
}

/// Whether `page` is the page that `step` shows of the session.
pub open spec fn is_page_of(
    page: Page,
    step: Step,
    state: WorkflowState,
    probe: Option<ImageProbe>,
) -> bool {
    match step {
        Step::WelcomeWithFolderChoose => {
            &&& page matches Page::Welcome(welcome)
            &&& is_welcome_page(welcome, state)
        },
        Step::Images => {
            &&& page matches Page::Images(images)
            &&& probe matches Some(found)
            &&& is_images_page(images, state, state.theme, found)
        },
        Step::End => {
            &&& page matches Page::End(heading)
            &&& heading.title@ == "End!"@
        },
    }
}

/// Whether the images page can be shown: there is an image at the current
/// position.
pub open spec fn can_show_images(state: WorkflowState) -> bool {
    state.curr_idx < state.all_images.len()
}

impl Step {
    /// The page that the step shows of the session. The images step shows
    /// the current image, so there has to be one, and the shell has to bring
    /// what it found out of its file.
    pub fn view(&self, obj: &Steps, probe: Option<ImageProbe>) -> (page: Page)
        requires
            *self == Step::Images ==> probe is Some && can_show_images(obj.state()),
        ensures
            is_page_of(page, *self, obj.state(), probe),
    {
        match self {
            Step::WelcomeWithFolderChoose => Page::Welcome(Self::welcome(obj)),
            Step::Images => {
                let theme = obj.theme();
                Page::Images(Self::images(obj, &theme, probe.unwrap()))
            },
            Step::End => Page::End(Self::end()),
        }
    }

    /// A heading with the given words.
    pub fn container_(title: &str) -> (heading: Heading)
        ensures
            heading.title@ == title@,
    {
        Heading { title: title.to_string() }
    }

    /// The welcome page: the choice of a theme and of a folder. Choosing a
    /// folder is the main thing to do until one has been chosen.
    pub fn welcome(obj: &Steps) -> (page: WelcomePage)
        ensures
            is_welcome_page(page, obj.state()),
    {
        WelcomePage { theme: obj.theme(), select_is_primary: !obj.folder_found() }
    }

    /// The facts shown beside the current image: its number counted from
    /// one, the number of images, the folder, the file name, and what is
    /// selected for it.
    pub fn create_info(
        curr_idx: &usize,
        len_images: &usize,
        folder_path: &str,
        correct_items: &[Option<bool>],
        image_file_name: String,
        theme: &ThemeType,
    ) -> (info: InfoRow)
        requires
            *curr_idx < usize::MAX,
        ensures
            is_info_row(
                info,
                *curr_idx,
                *len_images,
                folder_path@,
                correct_items@,
                image_file_name@,
                *theme,
            ),
    {
        let mut val = Selection::NoImage;
        if *curr_idx < correct_items.len() {
            val = match correct_items[*curr_idx] {
                Some(true) => Selection::Correct,
                Some(false) => Selection::Incorrect,
                None => Selection::NotSelected,
            };
        }
        InfoRow {
            current_item: *curr_idx + 1,
            total_images: *len_images,
            folder_path: folder_path.to_string(),
            image_file_name,
            selection: val,
            theme: *theme,
        }
    }

    /// The images page: the current image, or the words that say why it
    /// cannot be shown; the comment entry while a reason is asked for; the
    /// facts beside the image; and the controls for the images before and
    /// after, each where there is such an image. An image that cannot be
    /// shown takes nothing from the rest of the page.
    pub fn images(obj: &Steps, theme: &ThemeType, probe: ImageProbe) -> (page: ImagesPage)
        requires
            can_show_images(obj.state()),
        ensures
            is_images_page(page, obj.state(), *theme, probe),
    {
        let comment_entry = if obj.incorrect_btn_clicked() {
            let draft = obj.new_message().clone();
            let submit = msg_check(obj.new_message().clone());
            Some(CommentEntry { draft, submit })
        } else {
            None
        };
        let curr_idx = obj.curr_idx();
        let all_images = obj.all_images();
        assert(crate::record::texts_view(all_images@)[curr_idx as int] == all_images[curr_idx as int]@);
        let image = match fetch_image(all_images.clone(), &curr_idx, probe.header) {
            Ok(path) => ImageDisplay::Viewer(path),
            Err(e) => ImageDisplay::Error(e.message()),
        };
        let info = Self::create_info(
            &curr_idx,
            &all_images.len(),
            obj.folder_path().as_str(),
            obj.correct_items().as_slice(),
            probe.file_name,
            theme,
        );
        ImagesPage {
            theme: obj.theme(),
            image,
            comment_entry,
            info,
            previous: obj.is_previous_image_available(),
            next: obj.is_next_image_available(),
        }
    }

    /// The page of the last step.
    pub fn end() -> (heading: Heading)
        ensures
            heading.title@ == "End!"@,
    {
        Self::container_("End!")
    }
}

impl Steps {
    /// The page of the current step. On the images step there has to be a
    /// current image, and the shell has to bring what it found out of its
    /// file.
    pub fn view(&self, probe: Option<ImageProbe>) -> (page: Page)
        requires
            self.state().current < self.state().steps.len() && self.state().current_step()
                == Step::Images ==> probe is Some && can_show_images(self.state()),
        ensures
            self.state().current < self.state().steps.len(),
            is_page_of(page, self.state().current_step(), self.state(), probe),
    {
        let step = self.current_step();
        step.view(self, probe)
    }
}

} // verus!
