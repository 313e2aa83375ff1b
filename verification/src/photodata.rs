//! The records of the catalog, their mathematical models, and the
//! conversions between the stored and the editable shape of a record.

use vstd::prelude::*;
use vstd::string::*;
use crate::text::{
    clone_opt, clone_strings, non_empty, opt_text, opt_to_text, or_empty, text_to_opt, texts,
};

verus! {

/// A photo record as it is stored: a value the user left empty is absent.
#[derive(Debug, PartialEq, Eq)]
pub struct PhotoData {
    /// Name of the source file, as the import manifest gives it.
    pub file_name: String,
    /// The identifier of the photo: its key in the catalog.
    pub photo_id: String,
    /// Locator of the display copy; starts with `images/normal/`.
    pub photo_src: String,
    /// Locator of the placeholder copy; starts with `images/lazy/`.
    pub photo_lazy_src: String,
    /// Description of the picture.
    pub alt: String,
    /// Title of the picture.
    pub title: Option<String>,
    /// Year of capture.
    pub year: Option<String>,
    /// Month of capture.
    pub month: Option<String>,
    /// Day of capture.
    pub day: Option<String>,
    /// Hour of capture.
    pub hour: Option<String>,
    /// Minute of capture.
    pub minutes: Option<String>,
    /// Camera body.
    pub body: Option<String>,
    /// Lens.
    pub lens: Option<String>,
    /// Shutter time.
    pub time: Option<String>,
    /// Focal length.
    pub focal_length: Option<String>,
    /// F-number.
    pub f_value: Option<String>,
    /// ISO speed.
    pub iso: Option<String>,
    /// Where the picture was taken.
    pub location: String,
}

/// The model of a [`PhotoData`]: its texts as sequences of characters.
pub struct PhotoDataView {
    pub file_name: Seq<char>,
    pub photo_id: Seq<char>,
    pub photo_src: Seq<char>,
    pub photo_lazy_src: Seq<char>,
    pub alt: Seq<char>,
    pub title: Option<Seq<char>>,
    pub year: Option<Seq<char>>,
    pub month: Option<Seq<char>>,
    pub day: Option<Seq<char>>,
    pub hour: Option<Seq<char>>,
    pub minutes: Option<Seq<char>>,
    pub body: Option<Seq<char>>,
    pub lens: Option<Seq<char>>,
    pub time: Option<Seq<char>>,
    pub focal_length: Option<Seq<char>>,
    pub f_value: Option<Seq<char>>,
    pub iso: Option<Seq<char>>,
    pub location: Seq<char>,
}

impl View for PhotoData {
    type V = PhotoDataView;

    open spec fn view(&self) -> PhotoDataView {
        PhotoDataView {
            file_name: self.file_name@,
            photo_id: self.photo_id@,
            photo_src: self.photo_src@,
            photo_lazy_src: self.photo_lazy_src@,
            alt: self.alt@,
            title: opt_text(self.title),
            year: opt_text(self.year),
            month: opt_text(self.month),
            day: opt_text(self.day),
            hour: opt_text(self.hour),
            minutes: opt_text(self.minutes),
            body: opt_text(self.body),
            lens: opt_text(self.lens),
            time: opt_text(self.time),
            focal_length: opt_text(self.focal_length),
            f_value: opt_text(self.f_value),
            iso: opt_text(self.iso),
            location: self.location@,
        }
    }
}

impl Clone for PhotoData {
    fn clone(&self) -> (r: Self)
        ensures
            r@ == self@,
    {
        PhotoData {
            file_name: self.file_name.clone(),
            photo_id: self.photo_id.clone(),
            photo_src: self.photo_src.clone(),
            photo_lazy_src: self.photo_lazy_src.clone(),
            alt: self.alt.clone(),
            title: clone_opt(&self.title),
            year: clone_opt(&self.year),
            month: clone_opt(&self.month),
            day: clone_opt(&self.day),
            hour: clone_opt(&self.hour),
            minutes: clone_opt(&self.minutes),
            body: clone_opt(&self.body),
            lens: clone_opt(&self.lens),
            time: clone_opt(&self.time),
            focal_length: clone_opt(&self.focal_length),
            f_value: clone_opt(&self.f_value),
            iso: clone_opt(&self.iso),
            location: self.location.clone(),
        }
    }
}

/// A photo record as it is edited: every value is a text, empty where absent.
#[derive(Debug, PartialEq, Eq)]
pub struct GUIPhotoData {
    /// Name of the source file, as the import manifest gives it.
    pub file_name: String,
    /// The identifier of the photo: its key in the catalog.
    pub photo_id: String,
    /// Locator of the display copy; starts with `images/normal/`.
    pub photo_src: String,
    /// Locator of the placeholder copy; starts with `images/lazy/`.
    pub photo_lazy_src: String,
    /// Description of the picture.
    pub alt: String,
    /// Title of the picture.
    pub title: String,
    /// Year of capture.
    pub year: String,
    /// Month of capture.
    pub month: String,
    /// Day of capture.
    pub day: String,
    /// Hour of capture.
    pub hour: String,
    /// Minute of capture.
    pub minutes: String,
    /// Camera body.
    pub body: String,
    /// Lens.
    pub lens: String,
    /// Shutter time.
    pub time: String,
    /// Focal length.
    pub focal_length: String,
    /// F-number.
    pub f_value: String,
    /// ISO speed.
    pub iso: String,
    /// Where the picture was taken.
    pub location: String,
}

/// The model of a [`GUIPhotoData`].
pub struct GUIPhotoDataView {
    pub file_name: Seq<char>,
    pub photo_id: Seq<char>,
    pub photo_src: Seq<char>,
    pub photo_lazy_src: Seq<char>,
    pub alt: Seq<char>,
    pub title: Seq<char>,
    pub year: Seq<char>,
    pub month: Seq<char>,
    pub day: Seq<char>,
    pub hour: Seq<char>,
    pub minutes: Seq<char>,
    pub body: Seq<char>,
    pub lens: Seq<char>,
    pub time: Seq<char>,
    pub focal_length: Seq<char>,
    pub f_value: Seq<char>,
    pub iso: Seq<char>,
    pub location: Seq<char>,
}

impl View for GUIPhotoData {
    type V = GUIPhotoDataView;

    open spec fn view(&self) -> GUIPhotoDataView {
        GUIPhotoDataView {
            file_name: self.file_name@,
            photo_id: self.photo_id@,
            photo_src: self.photo_src@,
            photo_lazy_src: self.photo_lazy_src@,
            alt: self.alt@,
            title: self.title@,
            year: self.year@,
            month: self.month@,
            day: self.day@,
            hour: self.hour@,
            minutes: self.minutes@,
            body: self.body@,
            lens: self.lens@,
            time: self.time@,
            focal_length: self.focal_length@,
            f_value: self.f_value@,
            iso: self.iso@,
            location: self.location@,
        }
    }
}

impl Clone for GUIPhotoData {
    fn clone(&self) -> (r: Self)
        ensures
            r@ == self@,
    {
        GUIPhotoData {
            file_name: self.file_name.clone(),
            photo_id: self.photo_id.clone(),
            photo_src: self.photo_src.clone(),
            photo_lazy_src: self.photo_lazy_src.clone(),
            alt: self.alt.clone(),
            title: self.title.clone(),
            year: self.year.clone(),
            month: self.month.clone(),
            day: self.day.clone(),
            hour: self.hour.clone(),
            minutes: self.minutes.clone(),
            body: self.body.clone(),
            lens: self.lens.clone(),
            time: self.time.clone(),
            focal_length: self.focal_length.clone(),
            f_value: self.f_value.clone(),
            iso: self.iso.clone(),
            location: self.location.clone(),
        }
    }
}

impl GUIPhotoDataView {
    /// The stored record that this editable record stands for.
    pub open spec fn to_photo(self) -> PhotoDataView {
        PhotoDataView {
            file_name: self.file_name,
            photo_id: self.photo_id,
            photo_src: self.photo_src,
            photo_lazy_src: self.photo_lazy_src,
            alt: self.alt,
            title: text_to_opt(self.title),
            year: text_to_opt(self.year),
            month: text_to_opt(self.month),
            day: text_to_opt(self.day),
            hour: text_to_opt(self.hour),
            minutes: text_to_opt(self.minutes),
            body: text_to_opt(self.body),
            lens: text_to_opt(self.lens),
            time: text_to_opt(self.time),
            focal_length: text_to_opt(self.focal_length),
            f_value: text_to_opt(self.f_value),
            iso: text_to_opt(self.iso),
            location: self.location,
        }
    }

    /// The import record that this editable record is written back as.
    pub open spec fn to_import(self) -> ImportPhotoDataView {
        ImportPhotoDataView {
            file_name: self.file_name,
            id: self.photo_id,
            alt: self.alt,
            location: self.location,
        }
    }
}

impl PhotoDataView {
    /// The editable record that shows this stored record.
    pub open spec fn to_gui(self) -> GUIPhotoDataView {
        GUIPhotoDataView {
            file_name: self.file_name,
            photo_id: self.photo_id,
            photo_src: self.photo_src,
            photo_lazy_src: self.photo_lazy_src,
            alt: self.alt,
            title: opt_to_text(self.title),
            year: opt_to_text(self.year),
            month: opt_to_text(self.month),
            day: opt_to_text(self.day),
            hour: opt_to_text(self.hour),
            minutes: opt_to_text(self.minutes),
            body: opt_to_text(self.body),
            lens: opt_to_text(self.lens),
            time: opt_to_text(self.time),
            focal_length: opt_to_text(self.focal_length),
            f_value: opt_to_text(self.f_value),
            iso: opt_to_text(self.iso),
            location: self.location,
        }
    }

    /// No optional value is present and empty at once.
    pub open spec fn no_empty_value(self) -> bool {
        &&& self.title != Some(Seq::<char>::empty())
        &&& self.year != Some(Seq::<char>::empty())
        &&& self.month != Some(Seq::<char>::empty())
        &&& self.day != Some(Seq::<char>::empty())
        &&& self.hour != Some(Seq::<char>::empty())
        &&& self.minutes != Some(Seq::<char>::empty())
        &&& self.body != Some(Seq::<char>::empty())
        &&& self.lens != Some(Seq::<char>::empty())
        &&& self.time != Some(Seq::<char>::empty())
        &&& self.focal_length != Some(Seq::<char>::empty())
        &&& self.f_value != Some(Seq::<char>::empty())
        &&& self.iso != Some(Seq::<char>::empty())
    }
}

/// Converts an editable photo record into its stored shape: an empty text
/// becomes an absent value, every other text is kept as it is.
pub fn gui_photo_data_to_photo_data(gui_photo_data: GUIPhotoData) -> (r: PhotoData)
    ensures
        r@ == gui_photo_data@.to_photo(),
{
    PhotoData {
        file_name: gui_photo_data.file_name,
        photo_id: gui_photo_data.photo_id,
        photo_src: gui_photo_data.photo_src,
        photo_lazy_src: gui_photo_data.photo_lazy_src,
        alt: gui_photo_data.alt,
        title: non_empty(gui_photo_data.title),
        year: non_empty(gui_photo_data.year),
        month: non_empty(gui_photo_data.month),
        day: non_empty(gui_photo_data.day),
        hour: non_empty(gui_photo_data.hour),
        minutes: non_empty(gui_photo_data.minutes),
        body: non_empty(gui_photo_data.body),
        lens: non_empty(gui_photo_data.lens),
        time: non_empty(gui_photo_data.time),
        focal_length: non_empty(gui_photo_data.focal_length),
        f_value: non_empty(gui_photo_data.f_value),
        iso: non_empty(gui_photo_data.iso),
        location: gui_photo_data.location,
    }
}

/// Converts a stored photo record into its editable shape: an absent value
/// becomes the empty text.
pub fn photo_data_to_gui_photo_data(photo_data: PhotoData) -> (r: GUIPhotoData)
    ensures
        r@ == photo_data@.to_gui(),
{
    GUIPhotoData {
        file_name: photo_data.file_name,
        photo_id: photo_data.photo_id,
        photo_src: photo_data.photo_src,
        photo_lazy_src: photo_data.photo_lazy_src,
        alt: photo_data.alt,
        title: or_empty(photo_data.title),
        year: or_empty(photo_data.year),
        month: or_empty(photo_data.month),
        day: or_empty(photo_data.day),
        hour: or_empty(photo_data.hour),
        minutes: or_empty(photo_data.minutes),
        body: or_empty(photo_data.body),
        lens: or_empty(photo_data.lens),
        time: or_empty(photo_data.time),
        focal_length: or_empty(photo_data.focal_length),
        f_value: or_empty(photo_data.f_value),
        iso: or_empty(photo_data.iso),
        location: photo_data.location,
    }
}

/// A record of the import manifest: the facts that are supplied from outside.
#[derive(Debug, PartialEq, Eq)]
pub struct ImportPhotoData {
    /// Name of the source file, as the import manifest gives it.
    pub file_name: String,
    /// The identifier given to the photo; also used in locators.
    pub id: String,
    /// Description of the picture.
    pub alt: String,
    /// Where the picture was taken.
    pub location: String,
}

/// The model of an [`ImportPhotoData`].
pub struct ImportPhotoDataView {
    pub file_name: Seq<char>,
    pub id: Seq<char>,
    pub alt: Seq<char>,
    pub location: Seq<char>,
}

impl View for ImportPhotoData {
    type V = ImportPhotoDataView;

    open spec fn view(&self) -> ImportPhotoDataView {
        ImportPhotoDataView {
            file_name: self.file_name@,
            id: self.id@,
            alt: self.alt@,
            location: self.location@,
        }
    }
}

impl Clone for ImportPhotoData {
    fn clone(&self) -> (r: Self)
        ensures
            r@ == self@,
    {
        ImportPhotoData {
            file_name: self.file_name.clone(),
            id: self.id.clone(),
            alt: self.alt.clone(),
            location: self.location.clone(),
        }
    }
}

/// Projects an editable photo record onto the import manifest's shape, so
/// that the manifest can be written back with the catalog's values.
pub fn gui_photo_data_to_import_photo_data(photo_data: GUIPhotoData) -> (r: ImportPhotoData)
    ensures
        r@ == photo_data@.to_import(),
{
    ImportPhotoData {
        file_name: photo_data.file_name,
        id: photo_data.photo_id,
        alt: photo_data.alt,
        location: photo_data.location,
    }
}

/// The facts that are taken from a photo's embedded metadata.
#[derive(Debug, PartialEq, Eq)]
pub struct MinimalExif {
    /// Year of capture.
    pub year: Option<String>,
    /// Month of capture.
    pub month: Option<String>,
    /// Day of capture.
    pub day: Option<String>,
    /// Hour of capture.
    pub hour: Option<String>,
    /// Minute of capture.
    pub minutes: Option<String>,
    /// Camera body.
    pub body: Option<String>,
    /// Lens.
    pub lens: Option<String>,
    /// Shutter time.
    pub time: Option<String>,
    /// Focal length.
    pub focal_length: Option<String>,
    /// F-number.
    pub f_value: Option<String>,
    /// ISO speed.
    pub iso: Option<String>,
}

/// The model of a [`MinimalExif`].
pub struct MinimalExifView {
    pub year: Option<Seq<char>>,
    pub month: Option<Seq<char>>,
    pub day: Option<Seq<char>>,
    pub hour: Option<Seq<char>>,
    pub minutes: Option<Seq<char>>,
    pub body: Option<Seq<char>>,
    pub lens: Option<Seq<char>>,
    pub time: Option<Seq<char>>,
    pub focal_length: Option<Seq<char>>,
    pub f_value: Option<Seq<char>>,
    pub iso: Option<Seq<char>>,
}

impl View for MinimalExif {
    type V = MinimalExifView;

    open spec fn view(&self) -> MinimalExifView {
        MinimalExifView {
            year: opt_text(self.year),
            month: opt_text(self.month),
            day: opt_text(self.day),
            hour: opt_text(self.hour),
            minutes: opt_text(self.minutes),
            body: opt_text(self.body),
            lens: opt_text(self.lens),
            time: opt_text(self.time),
            focal_length: opt_text(self.focal_length),
            f_value: opt_text(self.f_value),
            iso: opt_text(self.iso),
        }
    }
}

impl Clone for MinimalExif {
    fn clone(&self) -> (r: Self)
        ensures
            r@ == self@,
    {
        MinimalExif {
            year: clone_opt(&self.year),
            month: clone_opt(&self.month),
            day: clone_opt(&self.day),
            hour: clone_opt(&self.hour),
            minutes: clone_opt(&self.minutes),
            body: clone_opt(&self.body),
            lens: clone_opt(&self.lens),
            time: clone_opt(&self.time),
            focal_length: clone_opt(&self.focal_length),
            f_value: clone_opt(&self.f_value),
            iso: clone_opt(&self.iso),
        }
    }
}

impl MinimalExifView {
    /// The metadata of a photo that carries none.
    pub open spec fn empty() -> MinimalExifView {
        MinimalExifView {
            year: None,
            month: None,
            day: None,
            hour: None,
            minutes: None,
            body: None,
            lens: None,
            time: None,
            focal_length: None,
            f_value: None,
            iso: None,
        }
    }
}

impl MinimalExif {
    /// The metadata of a photo that carries none: every value absent.
    pub fn empty() -> (r: MinimalExif)
        ensures
            r@ == MinimalExifView::empty(),
    {
        MinimalExif {
            year: None,
            month: None,
            day: None,
            hour: None,
            minutes: None,
            body: None,
            lens: None,
            time: None,
            focal_length: None,
            f_value: None,
            iso: None,
        }
    }
}

/// A group of photos as it is stored.
#[derive(Debug, PartialEq, Eq)]
pub struct GroupData {
    /// The identifier of the group, chosen by the user.
    pub group_id: String,
    /// The photos of the group, the latest addition last.
    pub photo_id_list: Vec<String>,
    /// Year of capture.
    pub year: Option<String>,
    /// Month of capture.
    pub month: Option<String>,
    /// Day of capture.
    pub day: Option<String>,
    /// Hour of capture.
    pub hour: Option<String>,
    /// Minute of capture.
    pub minutes: Option<String>,
    /// Title of the picture.
    pub title: String,
    /// Description of the group.
    pub description: String,
    /// Where the picture was taken.
    pub location: Option<String>,
}

/// The model of a [`GroupData`].
pub struct GroupDataView {
    pub group_id: Seq<char>,
    pub photo_id_list: Seq<Seq<char>>,
    pub year: Option<Seq<char>>,
    pub month: Option<Seq<char>>,
    pub day: Option<Seq<char>>,
    pub hour: Option<Seq<char>>,
    pub minutes: Option<Seq<char>>,
    pub title: Seq<char>,
    pub description: Seq<char>,
    pub location: Option<Seq<char>>,
}

impl View for GroupData {
    type V = GroupDataView;

    open spec fn view(&self) -> GroupDataView {
        GroupDataView {
            group_id: self.group_id@,
            photo_id_list: texts(self.photo_id_list@),
            year: opt_text(self.year),
            month: opt_text(self.month),
            day: opt_text(self.day),
            hour: opt_text(self.hour),
            minutes: opt_text(self.minutes),
            title: self.title@,
            description: self.description@,
            location: opt_text(self.location),
        }
    }
}

impl Clone for GroupData {
    fn clone(&self) -> (r: Self)
        ensures
            r@ == self@,
    {
        GroupData {
            group_id: self.group_id.clone(),
            photo_id_list: clone_strings(&self.photo_id_list),
            year: clone_opt(&self.year),
            month: clone_opt(&self.month),
            day: clone_opt(&self.day),
            hour: clone_opt(&self.hour),
            minutes: clone_opt(&self.minutes),
            title: self.title.clone(),
            description: self.description.clone(),
            location: clone_opt(&self.location),
        }
    }
}

/// A group of photos as it is edited: every value is a text.
#[derive(Debug, PartialEq, Eq)]
pub struct GUIGroupData {
    /// The identifier of the group, chosen by the user.
    pub group_id: String,
    /// The photos of the group, the latest addition last.
    pub photo_id_list: Vec<String>,
    /// Year of capture.
    pub year: String,
    /// Month of capture.
    pub month: String,
    /// Day of capture.
    pub day: String,
    /// Hour of capture.
    pub hour: String,
    /// Minute of capture.
    pub minutes: String,
    /// Title of the picture.
    pub title: String,
    /// Description of the group.
    pub description: String,
    /// Where the picture was taken.
    pub location: String,
}

/// The model of a [`GUIGroupData`].
pub struct GUIGroupDataView {
    pub group_id: Seq<char>,
    pub photo_id_list: Seq<Seq<char>>,
    pub year: Seq<char>,
    pub month: Seq<char>,
    pub day: Seq<char>,
    pub hour: Seq<char>,
    pub minutes: Seq<char>,
    pub title: Seq<char>,
    pub description: Seq<char>,
    pub location: Seq<char>,
}

impl View for GUIGroupData {
    type V = GUIGroupDataView;

    open spec fn view(&self) -> GUIGroupDataView {
        GUIGroupDataView {
            group_id: self.group_id@,
            photo_id_list: texts(self.photo_id_list@),
            year: self.year@,
            month: self.month@,
            day: self.day@,
            hour: self.hour@,
            minutes: self.minutes@,
            title: self.title@,
            description: self.description@,
            location: self.location@,
        }
    }
}

impl Clone for GUIGroupData {
    fn clone(&self) -> (r: Self)
        ensures
            r@ == self@,
    {
        GUIGroupData {
            group_id: self.group_id.clone(),
            photo_id_list: clone_strings(&self.photo_id_list),
            year: self.year.clone(),
            month: self.month.clone(),
            day: self.day.clone(),
            hour: self.hour.clone(),
            minutes: self.minutes.clone(),
            title: self.title.clone(),
            description: self.description.clone(),
            location: self.location.clone(),
        }
    }
}

impl GUIGroupDataView {
    /// The group that nothing has been entered for yet.
    pub open spec fn blank() -> GUIGroupDataView {
        GUIGroupDataView {
            group_id: Seq::empty(),
            photo_id_list: Seq::empty(),
            year: Seq::empty(),
            month: Seq::empty(),
            day: Seq::empty(),
            hour: Seq::empty(),
            minutes: Seq::empty(),
            title: Seq::empty(),
            description: Seq::empty(),
            location: Seq::empty(),
        }
    }

    /// The stored group that this editable group stands for.
    pub open spec fn to_group(self) -> GroupDataView {
        GroupDataView {
            group_id: self.group_id,
            photo_id_list: self.photo_id_list,
            year: text_to_opt(self.year),
            month: text_to_opt(self.month),
            day: text_to_opt(self.day),
            hour: text_to_opt(self.hour),
            minutes: text_to_opt(self.minutes),
            title: self.title,
            description: self.description,
            location: text_to_opt(self.location),
        }
    }
}

impl GroupDataView {
    /// The editable group that shows this stored group.
    pub open spec fn to_gui(self) -> GUIGroupDataView {
        GUIGroupDataView {
            group_id: self.group_id,
            photo_id_list: self.photo_id_list,
            year: opt_to_text(self.year),
            month: opt_to_text(self.month),
            day: opt_to_text(self.day),
            hour: opt_to_text(self.hour),
            minutes: opt_to_text(self.minutes),
            title: self.title,
            description: self.description,
            location: opt_to_text(self.location),
        }
    }

    /// No optional value is present and empty at once.
    pub open spec fn no_empty_value(self) -> bool {
        &&& self.year != Some(Seq::<char>::empty())
        &&& self.month != Some(Seq::<char>::empty())
        &&& self.day != Some(Seq::<char>::empty())
        &&& self.hour != Some(Seq::<char>::empty())
        &&& self.minutes != Some(Seq::<char>::empty())
        &&& self.location != Some(Seq::<char>::empty())
    }
}

/// The blank group that the form for a new group starts from.
pub fn make_dummy_gui_group_data() -> (r: GUIGroupData)
    ensures
        r@ == GUIGroupDataView::blank(),
{
    let r = GUIGroupData {
        group_id: String::new(),
        photo_id_list: Vec::new(),
        year: String::new(),
        month: String::new(),
        day: String::new(),
        hour: String::new(),
        minutes: String::new(),
        title: String::new(),
        description: String::new(),
        location: String::new(),
    };
    assert(texts(r.photo_id_list@) =~= Seq::<Seq<char>>::empty());
    r
}

/// Converts an editable group into its stored shape: an empty text becomes
/// an absent value; the members keep their order.
pub fn gui_group_data_to_group_data(gui_group_data: GUIGroupData) -> (r: GroupData)
    ensures
        r@ == gui_group_data@.to_group(),
{
    GroupData {
        group_id: gui_group_data.group_id,
        photo_id_list: gui_group_data.photo_id_list,
        year: non_empty(gui_group_data.year),
        month: non_empty(gui_group_data.month),
        day: non_empty(gui_group_data.day),
        hour: non_empty(gui_group_data.hour),
        minutes: non_empty(gui_group_data.minutes),
        title: gui_group_data.title,
        description: gui_group_data.description,
        location: non_empty(gui_group_data.location),
    }
}

/// Converts a stored group into its editable shape: an absent value becomes
/// the empty text; the members keep their order.
pub fn group_data_to_gui_group_data(group_data: GroupData) -> (r: GUIGroupData)
    ensures
        r@ == group_data@.to_gui(),
{
    GUIGroupData {
        group_id: group_data.group_id,
        photo_id_list: group_data.photo_id_list,
        year: or_empty(group_data.year),
        month: or_empty(group_data.month),
        day: or_empty(group_data.day),
        hour: or_empty(group_data.hour),
        minutes: or_empty(group_data.minutes),
        title: group_data.title,
        description: group_data.description,
        location: or_empty(group_data.location),
    }
}

/// Showing a stored photo record and storing it again gives the record
/// back, provided that none of its optional values is present and empty.
pub proof fn lemma_photo_round_trip(p: PhotoDataView)
    requires
        p.no_empty_value(),
    ensures
        p.to_gui().to_photo() == p,
{
    lemma_opt_round_trip(p.title);
    lemma_opt_round_trip(p.year);
    lemma_opt_round_trip(p.month);
    lemma_opt_round_trip(p.day);
    lemma_opt_round_trip(p.hour);
    lemma_opt_round_trip(p.minutes);
    lemma_opt_round_trip(p.body);
    lemma_opt_round_trip(p.lens);
    lemma_opt_round_trip(p.time);
    lemma_opt_round_trip(p.focal_length);
    lemma_opt_round_trip(p.f_value);
    lemma_opt_round_trip(p.iso);
}

/// A value that is absent, or present and not empty, is shown and stored
/// again unchanged.
pub proof fn lemma_opt_round_trip(o: Option<Seq<char>>)
    requires
        o != Some(Seq::<char>::empty()),
    ensures
        text_to_opt(opt_to_text(o)) == o,
{
    if let Some(s) = o {
        if s.len() == 0 {
            assert(s =~= Seq::<char>::empty());
        }
    }
}

/// Storing an editable photo record and showing it again gives the record
/// back, whatever its texts are: an empty text is stored as an absent value
/// and shown as the empty text again.
pub proof fn lemma_gui_photo_round_trip(g: GUIPhotoDataView)
    ensures
        g.to_photo().to_gui() == g,
        g.to_photo().no_empty_value(),
{
    assert(g.to_photo().to_gui() =~= g) by {
        lemma_text_round_trip(g.title);
        lemma_text_round_trip(g.year);
        lemma_text_round_trip(g.month);
        lemma_text_round_trip(g.day);
        lemma_text_round_trip(g.hour);
        lemma_text_round_trip(g.minutes);
        lemma_text_round_trip(g.body);
        lemma_text_round_trip(g.lens);
        lemma_text_round_trip(g.time);
        lemma_text_round_trip(g.focal_length);
        lemma_text_round_trip(g.f_value);
        lemma_text_round_trip(g.iso);
    }
}

/// An absent value is shown as the empty text, and the empty text is stored
/// as an absent value.
pub proof fn lemma_text_round_trip(s: Seq<char>)
    ensures
        opt_to_text(text_to_opt(s)) == s,
        text_to_opt(s) != Some(Seq::<char>::empty()),
        text_to_opt(Seq::<char>::empty()) == None::<Seq<char>>,
        opt_to_text(None) == Seq::<char>::empty(),
{
    if s.len() == 0 {
        assert(s =~= Seq::<char>::empty());
    }
}

/// Showing a stored group and storing it again gives the group back,
/// provided that none of its optional values is present and empty.
pub proof fn lemma_group_round_trip(g: GroupDataView)
    requires
        g.no_empty_value(),
    ensures
        g.to_gui().to_group() == g,
{
    lemma_opt_round_trip(g.year);
    lemma_opt_round_trip(g.month);
    lemma_opt_round_trip(g.day);
    lemma_opt_round_trip(g.hour);
    lemma_opt_round_trip(g.minutes);
    lemma_opt_round_trip(g.location);
}

/// Storing an editable group and showing it again gives the group back.
pub proof fn lemma_gui_group_round_trip(g: GUIGroupDataView)
    ensures
        g.to_group().to_gui() == g,
        g.to_group().no_empty_value(),
{
    assert(g.to_group().to_gui() =~= g) by {
        lemma_text_round_trip(g.year);
        lemma_text_round_trip(g.month);
        lemma_text_round_trip(g.day);
        lemma_text_round_trip(g.hour);
        lemma_text_round_trip(g.minutes);
        lemma_text_round_trip(g.location);
    }
}

} // verus!
