//! What the editing session decides on each tick and on each save: which of
//! the two periodic refreshes is due, what the refresh of the manifest has
//! to do, which photos need their images derived again, and the three
//! documents that a save writes.

use vstd::prelude::*;
use vstd::string::*;
use crate::group::{find_group, group_index};
use crate::photodata::{
    group_data_to_gui_group_data, gui_group_data_to_group_data,
    gui_photo_data_to_import_photo_data, gui_photo_data_to_photo_data,
    photo_data_to_gui_photo_data, GUIGroupData, GUIGroupDataView, GUIPhotoData, GUIPhotoDataView,
    GroupData, GroupDataView, ImportPhotoData, PhotoData, PhotoDataView,
};
use crate::reconcile::{
    find_gui_photo, gui_group_views, gui_photo_index, gui_photo_views, import_views, photo_views,
};
use crate::save::{
    interval_exceeded, is_stale, mark_fresh, marked_fresh, refresh_due, stale, time_info_views,
    TimeInfo, TimeStamp, SAVE_IMAGE_DIFF_TIME, SAVE_JSON_DIFF_TIME,
};
use crate::text::texts;

verus! {

/// What the main panel shows.
#[derive(Clone, Copy, Debug, PartialEq, Eq)]
pub enum Mode {
    /// The photos are edited.
    EditPhotoData,
    /// The groups are edited.
    EditGroupData,
}

impl Mode {
    /// The other mode.
    pub open spec fn other(self) -> Mode {
        match self {
            Mode::EditPhotoData => Mode::EditGroupData,
            Mode::EditGroupData => Mode::EditPhotoData,
        }
    }
}

/// Switches between editing photos and editing groups; nothing is selected
/// after the switch.
pub fn switch_mode(mode: &mut Mode, now_id: &mut String)
    ensures
        *final(mode) == old(mode).other(),
        final(now_id)@ == Seq::<char>::empty(),
{
    *mode = match *mode {
        Mode::EditPhotoData => Mode::EditGroupData,
        Mode::EditGroupData => Mode::EditPhotoData,
    };
    *now_id = String::new();
}

/// When each of the two periodic refreshes last ran.
#[derive(Clone, Copy, Debug, PartialEq, Eq)]
pub struct Schedule {
    /// When the manifest was last checked and the documents were saved.
    pub json_save_time: TimeStamp,
    /// When the derived images were last checked.
    pub image_save_time: TimeStamp,
}

/// What a tick has to do.
#[derive(Clone, Copy, Debug, PartialEq, Eq)]
pub struct TickPlan {
    /// The manifest is to be checked and the documents are to be saved.
    pub refresh_metadata: bool,
    /// The derived images are to be checked.
    pub refresh_derivatives: bool,
}

/// Decides what is due at `now` and notes that it runs now. The two
/// refreshes are independent: each is due once more than its own interval
/// has passed since it last ran, and only a refresh that is due has its
/// time moved to `now`.
pub fn tick(schedule: &mut Schedule, now: TimeStamp) -> (r: TickPlan)
    ensures
        r.refresh_metadata == interval_exceeded(
            old(schedule).json_save_time,
            now,
            SAVE_JSON_DIFF_TIME as int,
        ),
        r.refresh_derivatives == interval_exceeded(
            old(schedule).image_save_time,
            now,
            SAVE_IMAGE_DIFF_TIME as int,
        ),
        final(schedule).json_save_time == if r.refresh_metadata {
            now
        } else {
            old(schedule).json_save_time
        },
        final(schedule).image_save_time == if r.refresh_derivatives {
            now
        } else {
            old(schedule).image_save_time
        },
{
    let refresh_metadata = refresh_due(schedule.json_save_time, now, SAVE_JSON_DIFF_TIME);
    let refresh_derivatives = refresh_due(schedule.image_save_time, now, SAVE_IMAGE_DIFF_TIME);
    if refresh_metadata {
        schedule.json_save_time = now;
    }
    if refresh_derivatives {
        schedule.image_save_time = now;
    }
    TickPlan { refresh_metadata, refresh_derivatives }
}

/// What the refresh of the manifest does.
#[derive(Clone, Copy, Debug, PartialEq, Eq)]
pub enum MetadataAction {
    /// The documents are saved as they are.
    Persist,
    /// The catalog is reconciled with the manifest, then the documents are
    /// saved.
    ReconcileAndPersist,
}

/// Decides what the refresh of the manifest does, from the time of the
/// manifest's file, which is absent where it could not be read, and the
/// time of the previous refresh: the catalog is reconciled where the
/// manifest was written after the previous refresh.
pub fn metadata_action(manifest_time: Option<TimeStamp>, last_refresh: TimeStamp) -> (r:
    MetadataAction)
    ensures
        r == match manifest_time {
            Some(t) => if last_refresh.is_before(t) {
                MetadataAction::ReconcileAndPersist
            } else {
                MetadataAction::Persist
            },
            None => MetadataAction::Persist,
        },
{
    match manifest_time {
        Some(t) => {
            if last_refresh.before(&t) {
                MetadataAction::ReconcileAndPersist
            } else {
                MetadataAction::Persist
            }
        },
        None => MetadataAction::Persist,
    }
}

/// The time of the source file of the photo at `i`: absent where it could
/// not be read or the list holds no entry for the photo.
pub open spec fn source_time_at(source_times: Seq<Option<TimeStamp>>, i: int) -> Option<TimeStamp> {
    if 0 <= i < source_times.len() {
        source_times[i]
    } else {
        None
    }
}

/// For each photo of the catalog, whether its images must be derived again,
/// given the time of its source file at the same place of `source_times`.
pub fn stale_photos(
    time_info_lst: &Vec<TimeInfo>,
    gui_photo_data_lst: &Vec<GUIPhotoData>,
    source_times: &[Option<TimeStamp>],
) -> (r: Vec<bool>)
    ensures
        r.len() == gui_photo_data_lst.len(),
        forall|i: int|
            0 <= i < r.len() ==> r[i] == stale(
                time_info_views(time_info_lst@),
                #[trigger] gui_photo_data_lst[i]@.photo_id,
                source_time_at(source_times@, i),
            ),
{
    let mut r: Vec<bool> = Vec::new();
    let mut i: usize = 0;
    while i < gui_photo_data_lst.len()
        invariant
            i <= gui_photo_data_lst.len(),
            r.len() == i,
            forall|j: int|
                0 <= j < i ==> r[j] == stale(
                    time_info_views(time_info_lst@),
                    #[trigger] gui_photo_data_lst[j]@.photo_id,
                    source_time_at(source_times@, j),
                ),
        decreases gui_photo_data_lst.len() - i,
    {
        let source_time = if i < source_times.len() {
            source_times[i]
        } else {
            None
        };
        r.push(is_stale(time_info_lst, gui_photo_data_lst[i].photo_id.as_str(), source_time));
        i += 1;
    }
    r
}

/// Notes how the derivation of the images of a photo ended at `now`. Only a
/// derivation that succeeded is recorded: after one that failed the photo
/// is as stale as it was, and is tried again at the next refresh.
pub fn record_derivation(
    time_info_lst: &mut Vec<TimeInfo>,
    photo_id: &str,
    succeeded: bool,
    now: TimeStamp,
)
    ensures
        succeeded ==> time_info_views(final(time_info_lst)@) == marked_fresh(
            time_info_views(old(time_info_lst)@),
            photo_id@,
            now,
        ),
        !succeeded ==> *final(time_info_lst) == *old(time_info_lst),
{
    if succeeded {
        mark_fresh(time_info_lst, photo_id, now);
    }
}

/// Whether the catalog holds a record for every identifier of the list.
pub open spec fn all_photos_found(ids: Seq<Seq<char>>, photos: Seq<GUIPhotoDataView>) -> bool {
    forall|i: int| 0 <= i < ids.len() ==> find_gui_photo(photos, #[trigger] ids[i]) is Some
}

/// The records of the photos of the list, in the order of the list.
pub open spec fn listed_photos(ids: Seq<Seq<char>>, photos: Seq<GUIPhotoDataView>) -> Seq<
    GUIPhotoDataView,
> {
    Seq::new(ids.len(), |i: int| find_gui_photo(photos, ids[i])->0)
}

/// Whether the table holds a group for every identifier of the list.
pub open spec fn all_groups_found(ids: Seq<Seq<char>>, groups: Seq<GUIGroupDataView>) -> bool {
    forall|i: int| 0 <= i < ids.len() ==> find_group(groups, #[trigger] ids[i]) is Some
}

/// The groups of the list, in the order of the list.
pub open spec fn listed_groups(ids: Seq<Seq<char>>, groups: Seq<GUIGroupDataView>) -> Seq<
    GUIGroupDataView,
> {
    Seq::new(ids.len(), |i: int| find_group(groups, ids[i])->0)
}

/// The stored records of the listed photos, in the order of the list: the
/// document of photo records. There is none where the catalog lacks a
/// record for an identifier of the list.
pub fn make_photo_data_lst(photo_id_lst: &[String], photo_data_lst: &Vec<GUIPhotoData>) -> (r:
    Option<Vec<PhotoData>>)
    ensures
        match r {
            Some(v) => {
                &&& all_photos_found(texts(photo_id_lst@), gui_photo_views(photo_data_lst@))
                &&& photo_views(v@) == listed_photos(
                    texts(photo_id_lst@),
                    gui_photo_views(photo_data_lst@),
                ).map_values(|g: GUIPhotoDataView| g.to_photo())
            },
            None => !all_photos_found(texts(photo_id_lst@), gui_photo_views(photo_data_lst@)),
        },
{
    let ghost ids = texts(photo_id_lst@);
    let ghost photos = gui_photo_views(photo_data_lst@);
    let mut v: Vec<PhotoData> = Vec::new();
    let mut i: usize = 0;
    while i < photo_id_lst.len()
        invariant
            i <= photo_id_lst.len(),
            ids == texts(photo_id_lst@),
            photos == gui_photo_views(photo_data_lst@),
            v.len() == i,
            forall|j: int| 0 <= j < i ==> find_gui_photo(photos, #[trigger] ids[j]) is Some,
            forall|j: int|
                0 <= j < i ==> v[j]@ == (find_gui_photo(photos, ids[j])->0).to_photo(),
        decreases photo_id_lst.len() - i,
    {
        assert(ids[i as int] == photo_id_lst[i as int]@);
        match gui_photo_index(photo_data_lst, &photo_id_lst[i]) {
            Some(k) => {
                v.push(gui_photo_data_to_photo_data(photo_data_lst[k].clone()));
            },
            None => {
                return None;
            },
        }
        i += 1;
    }
    assert(photo_views(v@) =~= listed_photos(ids, photos).map_values(
        |g: GUIPhotoDataView| g.to_photo(),
    ));
    Some(v)
}

/// The listed photos in the shape of the import manifest, in the order of
/// the list: the document that is written back as the manifest. There is
/// none where the catalog lacks a record for an identifier of the list.
pub fn make_import_photo_data_lst(photo_id_lst: &[String], photo_data_lst: &Vec<GUIPhotoData>) -> (r:
    Option<Vec<ImportPhotoData>>)
    ensures
        match r {
            Some(v) => {
                &&& all_photos_found(texts(photo_id_lst@), gui_photo_views(photo_data_lst@))
                &&& import_views(v@) == listed_photos(
                    texts(photo_id_lst@),
                    gui_photo_views(photo_data_lst@),
                ).map_values(|g: GUIPhotoDataView| g.to_import())
            },
            None => !all_photos_found(texts(photo_id_lst@), gui_photo_views(photo_data_lst@)),
        },
{
    let ghost ids = texts(photo_id_lst@);
    let ghost photos = gui_photo_views(photo_data_lst@);
    let mut v: Vec<ImportPhotoData> = Vec::new();
    let mut i: usize = 0;
    while i < photo_id_lst.len()
        invariant
            i <= photo_id_lst.len(),
            ids == texts(photo_id_lst@),
            photos == gui_photo_views(photo_data_lst@),
            v.len() == i,
            forall|j: int| 0 <= j < i ==> find_gui_photo(photos, #[trigger] ids[j]) is Some,
            forall|j: int|
                0 <= j < i ==> v[j]@ == (find_gui_photo(photos, ids[j])->0).to_import(),
        decreases photo_id_lst.len() - i,
    {
        assert(ids[i as int] == photo_id_lst[i as int]@);
        match gui_photo_index(photo_data_lst, &photo_id_lst[i]) {
            Some(k) => {
                v.push(gui_photo_data_to_import_photo_data(photo_data_lst[k].clone()));
            },
            None => {
                return None;
            },
        }
        i += 1;
    }
    assert(import_views(v@) =~= listed_photos(ids, photos).map_values(
        |g: GUIPhotoDataView| g.to_import(),
    ));
    Some(v)
}

/// The models of the stored groups, in order.
pub open spec fn group_views(g: Seq<GroupData>) -> Seq<GroupDataView> {
    g.map_values(|g: GroupData| g@)
}

/// The stored shape of the listed groups, in the order of the list: the
/// document of groups. There is none where the table lacks a group for an
/// identifier of the list.
pub fn make_group_data_lst(group_id_lst: &[String], group_data_lst: &Vec<GUIGroupData>) -> (r:
    Option<Vec<GroupData>>)
    ensures
        match r {
            Some(v) => {
                &&& all_groups_found(texts(group_id_lst@), gui_group_views(group_data_lst@))
                &&& group_views(v@) == listed_groups(
                    texts(group_id_lst@),
                    gui_group_views(group_data_lst@),
                ).map_values(|g: GUIGroupDataView| g.to_group())
            },
            None => !all_groups_found(texts(group_id_lst@), gui_group_views(group_data_lst@)),
        },
{
    let ghost ids = texts(group_id_lst@);
    let ghost groups = gui_group_views(group_data_lst@);
    let mut v: Vec<GroupData> = Vec::new();
    let mut i: usize = 0;
    while i < group_id_lst.len()
        invariant
            i <= group_id_lst.len(),
            ids == texts(group_id_lst@),
            groups == gui_group_views(group_data_lst@),
            v.len() == i,
            forall|j: int| 0 <= j < i ==> find_group(groups, #[trigger] ids[j]) is Some,
            forall|j: int| 0 <= j < i ==> v[j]@ == (find_group(groups, ids[j])->0).to_group(),
        decreases group_id_lst.len() - i,
    {
        assert(ids[i as int] == group_id_lst[i as int]@);
        match group_index(group_data_lst, &group_id_lst[i]) {
            Some(k) => {
                v.push(gui_group_data_to_group_data(group_data_lst[k].clone()));
            },
            None => {
                return None;
            },
        }
        i += 1;
    }
    assert(group_views(v@) =~= listed_groups(ids, groups).map_values(
        |g: GUIGroupDataView| g.to_group(),
    ));
    Some(v)
}

/// The three documents that a save writes.
#[derive(Debug, PartialEq, Eq)]
pub struct SaveDocuments {
    /// The photo records.
    pub photo_data: Vec<PhotoData>,
    /// The groups.
    pub group_data: Vec<GroupData>,
    /// The photos in the shape of the import manifest.
    pub import_photo_data: Vec<ImportPhotoData>,
}

/// Assembles the three documents of a save from the lists of photos and of
/// groups. Nothing is assembled where a listed photo or group has no
/// record: a save is all or nothing.
pub fn save_file(
    photo_id_lst: &[String],
    gui_photo_data_lst: &Vec<GUIPhotoData>,
    group_id_lst: &[String],
    gui_group_data_lst: &Vec<GUIGroupData>,
) -> (r: Option<SaveDocuments>)
    ensures
        match r {
            Some(d) => {
                &&& all_photos_found(texts(photo_id_lst@), gui_photo_views(gui_photo_data_lst@))
                &&& all_groups_found(texts(group_id_lst@), gui_group_views(gui_group_data_lst@))
                &&& photo_views(d.photo_data@) == listed_photos(
                    texts(photo_id_lst@),
                    gui_photo_views(gui_photo_data_lst@),
                ).map_values(|g: GUIPhotoDataView| g.to_photo())
                &&& group_views(d.group_data@) == listed_groups(
                    texts(group_id_lst@),
                    gui_group_views(gui_group_data_lst@),
                ).map_values(|g: GUIGroupDataView| g.to_group())
                &&& import_views(d.import_photo_data@) == listed_photos(
                    texts(photo_id_lst@),
                    gui_photo_views(gui_photo_data_lst@),
                ).map_values(|g: GUIPhotoDataView| g.to_import())
            },
            None => !all_photos_found(texts(photo_id_lst@), gui_photo_views(gui_photo_data_lst@))
                || !all_groups_found(texts(group_id_lst@), gui_group_views(gui_group_data_lst@)),
        },
{
    let photo_data = match make_photo_data_lst(photo_id_lst, gui_photo_data_lst) {
        Some(v) => v,
        None => {
            return None;
        },
    };
    let group_data = match make_group_data_lst(group_id_lst, gui_group_data_lst) {
        Some(v) => v,
        None => {
            return None;
        },
    };
    let import_photo_data = match make_import_photo_data_lst(photo_id_lst, gui_photo_data_lst) {
        Some(v) => v,
        None => {
            return None;
        },
    };
    Some(SaveDocuments { photo_data, group_data, import_photo_data })
}

/// The editable catalog of a session that starts from the stored records:
/// each record in its editable shape, in the same order.
pub fn load_gui_photo_data_lst(photo_data_lst: &Vec<PhotoData>) -> (r: Vec<GUIPhotoData>)
    ensures
        gui_photo_views(r@) == photo_views(photo_data_lst@).map_values(
            |p: PhotoDataView| p.to_gui(),
        ),
{
    let mut r: Vec<GUIPhotoData> = Vec::new();
    let mut i: usize = 0;
    while i < photo_data_lst.len()
        invariant
            i <= photo_data_lst.len(),
            r.len() == i,
            forall|j: int| 0 <= j < i ==> r[j]@ == photo_data_lst[j]@.to_gui(),
        decreases photo_data_lst.len() - i,
    {
        r.push(photo_data_to_gui_photo_data(photo_data_lst[i].clone()));
        i += 1;
    }
    assert(gui_photo_views(r@) =~= photo_views(photo_data_lst@).map_values(
        |p: PhotoDataView| p.to_gui(),
    ));
    r
}

/// The list of groups and the table of groups of a session that starts
/// from the stored groups: the identifiers in the stored order, and each
/// group in its editable shape.
pub fn load_gui_group_data_lst(group_data_lst: &Vec<GroupData>) -> (r: (
    Vec<String>,
    Vec<GUIGroupData>,
))
    ensures
        texts(r.0@) == group_views(group_data_lst@).map_values(|g: GroupDataView| g.group_id),
        gui_group_views(r.1@) == group_views(group_data_lst@).map_values(
            |g: GroupDataView| g.to_gui(),
        ),
{
    let mut ids: Vec<String> = Vec::new();
    let mut groups: Vec<GUIGroupData> = Vec::new();
    let mut i: usize = 0;
    while i < group_data_lst.len()
        invariant
            i <= group_data_lst.len(),
            ids.len() == i,
            groups.len() == i,
            forall|j: int| 0 <= j < i ==> ids[j]@ == group_data_lst[j]@.group_id,
            forall|j: int| 0 <= j < i ==> groups[j]@ == group_data_lst[j]@.to_gui(),
        decreases group_data_lst.len() - i,
    {
        ids.push(group_data_lst[i].group_id.clone());
        groups.push(group_data_to_gui_group_data(group_data_lst[i].clone()));
        i += 1;
    }
    assert(texts(ids@) =~= group_views(group_data_lst@).map_values(
        |g: GroupDataView| g.group_id,
    ));
    assert(gui_group_views(groups@) =~= group_views(group_data_lst@).map_values(
        |g: GroupDataView| g.to_gui(),
    ));
    (ids, groups)
}

} // verus!
