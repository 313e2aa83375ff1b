//! Reconciliation of the catalog with the import manifest.
//!
//! The manifest decides which photos exist and is authoritative for the
//! file name, the description and the location of each. Every other value
//! of a record that already exists is the user's and is kept. A photo that
//! is new takes its capture facts from the metadata embedded in its file,
//! where that could be read, and keeps the identifier that the manifest
//! gives it in either case. The locators of the derived images are always
//! computed from the identifier.

use vstd::prelude::*;
use vstd::string::*;
use crate::lookup::{last_index_of, lemma_last_index_of};
use crate::photodata::{
    GUIGroupData, GUIGroupDataView, GUIPhotoData, GUIPhotoDataView,
    ImportPhotoData, ImportPhotoDataView, MinimalExif, MinimalExifView, PhotoData, PhotoDataView,
};
use crate::text::{clone_opt, opt_to_text, or_empty, texts};

verus! {

/// Where the display copy of the photo `id` is found.
pub open spec fn normal_locator(id: Seq<char>) -> Seq<char> {
    "images/normal/"@ + id + ".JPG"@
}

/// Where the placeholder copy of the photo `id` is found.
pub open spec fn lazy_locator(id: Seq<char>) -> Seq<char> {
    "images/lazy/"@ + id + ".JPG"@
}

/// The locator of the display copy of a photo.
pub fn normal_src(id: &String) -> (r: String)
    ensures
        r@ == normal_locator(id@),
{
    String::from_str("images/normal/").concat(id.as_str()).concat(".JPG")
}

/// The locator of the placeholder copy of a photo.
pub fn lazy_src(id: &String) -> (r: String)
    ensures
        r@ == lazy_locator(id@),
{
    String::from_str("images/lazy/").concat(id.as_str()).concat(".JPG")
}

/// The model of an optional reference to a record.
pub open spec fn photo_view_of(p: Option<&PhotoData>) -> Option<PhotoDataView> {
    match p {
        Some(p) => Some(p@),
        None => None,
    }
}

/// The model of an optional reference to an editable record.
pub open spec fn gui_photo_view_of(p: Option<&GUIPhotoData>) -> Option<GUIPhotoDataView> {
    match p {
        Some(p) => Some(p@),
        None => None,
    }
}

/// The model of what the extraction of embedded metadata gave: nothing
/// where it failed.
pub open spec fn exif_view_of(e: Option<&MinimalExif>) -> Option<MinimalExifView> {
    match e {
        Some(e) => Some(e@),
        None => None,
    }
}

/// The capture facts that a new record starts from: those that were
/// extracted, or none.
pub open spec fn facts_of(exif: Option<MinimalExifView>) -> MinimalExifView {
    match exif {
        Some(e) => e,
        None => MinimalExifView::empty(),
    }
}

/// The record of one photo after reconciliation, in the stored shape.
///
/// File name, identifier, description and location are the manifest's and
/// the locators follow from the identifier. The other values are those of
/// the existing record; a new record has no title and no camera body, and
/// takes the rest from the extracted facts.
pub open spec fn merged_photo(
    existing: Option<PhotoDataView>,
    import: ImportPhotoDataView,
    exif: Option<MinimalExifView>,
) -> PhotoDataView {
    let facts = facts_of(exif);
    match existing {
        Some(p) => PhotoDataView {
            file_name: import.file_name,
            photo_id: import.id,
            photo_src: normal_locator(import.id),
            photo_lazy_src: lazy_locator(import.id),
            alt: import.alt,
            location: import.location,
            ..p
        },
        None => PhotoDataView {
            file_name: import.file_name,
            photo_id: import.id,
            photo_src: normal_locator(import.id),
            photo_lazy_src: lazy_locator(import.id),
            alt: import.alt,
            title: None,
            year: facts.year,
            month: facts.month,
            day: facts.day,
            hour: facts.hour,
            minutes: facts.minutes,
            body: None,
            lens: facts.lens,
            time: facts.time,
            focal_length: facts.focal_length,
            f_value: facts.f_value,
            iso: facts.iso,
            location: import.location,
        },
    }
}

/// The record of one photo after reconciliation, in the editable shape:
/// as [`merged_photo`], with an absent value shown as the empty text.
pub open spec fn merged_gui_photo(
    existing: Option<GUIPhotoDataView>,
    import: ImportPhotoDataView,
    exif: Option<MinimalExifView>,
) -> GUIPhotoDataView {
    let facts = facts_of(exif);
    match existing {
        Some(p) => GUIPhotoDataView {
            file_name: import.file_name,
            photo_id: import.id,
            photo_src: normal_locator(import.id),
            photo_lazy_src: lazy_locator(import.id),
            alt: import.alt,
            location: import.location,
            ..p
        },
        None => GUIPhotoDataView {
            file_name: import.file_name,
            photo_id: import.id,
            photo_src: normal_locator(import.id),
            photo_lazy_src: lazy_locator(import.id),
            alt: import.alt,
            title: Seq::empty(),
            year: opt_to_text(facts.year),
            month: opt_to_text(facts.month),
            day: opt_to_text(facts.day),
            hour: opt_to_text(facts.hour),
            minutes: opt_to_text(facts.minutes),
            body: Seq::empty(),
            lens: opt_to_text(facts.lens),
            time: opt_to_text(facts.time),
            focal_length: opt_to_text(facts.focal_length),
            f_value: opt_to_text(facts.f_value),
            iso: opt_to_text(facts.iso),
            location: import.location,
        },
    }
}

/// Builds the stored record of one photo of the manifest from the record
/// that exists for it, if any, and from the facts extracted from its file,
/// which are read only where no record exists.
pub fn merge_photo_record(
    existing: Option<&PhotoData>,
    import: &ImportPhotoData,
    exif: Option<&MinimalExif>,
) -> (r: PhotoData)
    ensures
        r@ == merged_photo(photo_view_of(existing), import@, exif_view_of(exif)),
{
    match existing {
        Some(p) => PhotoData {
            file_name: import.file_name.clone(),
            photo_id: import.id.clone(),
            photo_src: normal_src(&import.id),
            photo_lazy_src: lazy_src(&import.id),
            alt: import.alt.clone(),
            title: clone_opt(&p.title),
            year: clone_opt(&p.year),
            month: clone_opt(&p.month),
            day: clone_opt(&p.day),
            hour: clone_opt(&p.hour),
            minutes: clone_opt(&p.minutes),
            body: clone_opt(&p.body),
            lens: clone_opt(&p.lens),
            time: clone_opt(&p.time),
            focal_length: clone_opt(&p.focal_length),
            f_value: clone_opt(&p.f_value),
            iso: clone_opt(&p.iso),
            location: import.location.clone(),
        },
        None => {
            let facts = match exif {
                Some(e) => e.clone(),
                None => MinimalExif::empty(),
            };
            PhotoData {
                file_name: import.file_name.clone(),
                photo_id: import.id.clone(),
                photo_src: normal_src(&import.id),
                photo_lazy_src: lazy_src(&import.id),
                alt: import.alt.clone(),
                title: None,
                year: facts.year,
                month: facts.month,
                day: facts.day,
                hour: facts.hour,
                minutes: facts.minutes,
                body: None,
                lens: facts.lens,
                time: facts.time,
                focal_length: facts.focal_length,
                f_value: facts.f_value,
                iso: facts.iso,
                location: import.location.clone(),
            }
        },
    }
}

/// Builds the editable record of one photo of the manifest; see
/// [`merge_photo_record`].
pub fn merge_gui_photo_record(
    existing: Option<&GUIPhotoData>,
    import: &ImportPhotoData,
    exif: Option<&MinimalExif>,
) -> (r: GUIPhotoData)
    ensures
        r@ == merged_gui_photo(gui_photo_view_of(existing), import@, exif_view_of(exif)),
{
    match existing {
        Some(p) => GUIPhotoData {
            file_name: import.file_name.clone(),
            photo_id: import.id.clone(),
            photo_src: normal_src(&import.id),
            photo_lazy_src: lazy_src(&import.id),
            alt: import.alt.clone(),
            title: p.title.clone(),
            year: p.year.clone(),
            month: p.month.clone(),
            day: p.day.clone(),
            hour: p.hour.clone(),
            minutes: p.minutes.clone(),
            body: p.body.clone(),
            lens: p.lens.clone(),
            time: p.time.clone(),
            focal_length: p.focal_length.clone(),
            f_value: p.f_value.clone(),
            iso: p.iso.clone(),
            location: import.location.clone(),
        },
        None => {
            let facts = match exif {
                Some(e) => e.clone(),
                None => MinimalExif::empty(),
            };
            GUIPhotoData {
                file_name: import.file_name.clone(),
                photo_id: import.id.clone(),
                photo_src: normal_src(&import.id),
                photo_lazy_src: lazy_src(&import.id),
                alt: import.alt.clone(),
                title: String::new(),
                year: or_empty(facts.year),
                month: or_empty(facts.month),
                day: or_empty(facts.day),
                hour: or_empty(facts.hour),
                minutes: or_empty(facts.minutes),
                body: String::new(),
                lens: or_empty(facts.lens),
                time: or_empty(facts.time),
                focal_length: or_empty(facts.focal_length),
                f_value: or_empty(facts.f_value),
                iso: or_empty(facts.iso),
                location: import.location.clone(),
            }
        },
    }
}

/// The models of the records of a stored catalog, in order.
pub open spec fn photo_views(c: Seq<PhotoData>) -> Seq<PhotoDataView> {
    c.map_values(|p: PhotoData| p@)
}

/// The models of the records of an editable catalog, in order.
pub open spec fn gui_photo_views(c: Seq<GUIPhotoData>) -> Seq<GUIPhotoDataView> {
    c.map_values(|p: GUIPhotoData| p@)
}

/// The models of the records of a manifest, in order.
pub open spec fn import_views(m: Seq<ImportPhotoData>) -> Seq<ImportPhotoDataView> {
    m.map_values(|i: ImportPhotoData| i@)
}

/// The models of the editable groups, in order.
pub open spec fn gui_group_views(g: Seq<GUIGroupData>) -> Seq<GUIGroupDataView> {
    g.map_values(|g: GUIGroupData| g@)
}

/// The models of what extraction gave for each record of a manifest.
pub open spec fn exif_views(e: Seq<Option<MinimalExif>>) -> Seq<Option<MinimalExifView>> {
    e.map_values(
        |e: Option<MinimalExif>|
            match e {
                Some(e) => Some(e@),
                None => None,
            },
    )
}

/// What extraction gave for the record at `i` of the manifest: nothing
/// where the list holds no entry for it.
pub open spec fn exif_at(e: Seq<Option<MinimalExifView>>, i: int) -> Option<MinimalExifView> {
    if 0 <= i < e.len() {
        e[i]
    } else {
        None
    }
}

/// The identifiers of a stored catalog, in order.
pub open spec fn photo_ids(c: Seq<PhotoDataView>) -> Seq<Seq<char>> {
    c.map_values(|p: PhotoDataView| p.photo_id)
}

/// The identifiers of an editable catalog, in order.
pub open spec fn gui_photo_ids(c: Seq<GUIPhotoDataView>) -> Seq<Seq<char>> {
    c.map_values(|p: GUIPhotoDataView| p.photo_id)
}

/// The identifiers of a manifest, in order.
pub open spec fn import_ids(m: Seq<ImportPhotoDataView>) -> Seq<Seq<char>> {
    m.map_values(|i: ImportPhotoDataView| i.id)
}

/// The record that a stored catalog holds for `id`.
pub open spec fn find_photo(c: Seq<PhotoDataView>, id: Seq<char>) -> Option<PhotoDataView> {
    match last_index_of(photo_ids(c), id) {
        Some(i) => Some(c[i]),
        None => None,
    }
}

/// The record that an editable catalog holds for `id`.
pub open spec fn find_gui_photo(c: Seq<GUIPhotoDataView>, id: Seq<char>) -> Option<
    GUIPhotoDataView,
> {
    match last_index_of(gui_photo_ids(c), id) {
        Some(i) => Some(c[i]),
        None => None,
    }
}

/// The place of the record for `id` in a stored catalog.
pub fn photo_index(catalog: &Vec<PhotoData>, id: &String) -> (r: Option<usize>)
    ensures
        match r {
            Some(i) => i < catalog.len() && last_index_of(
                photo_ids(photo_views(catalog@)),
                id@,
            ) == Some(i as int),
            None => last_index_of(photo_ids(photo_views(catalog@)), id@) is None,
        },
{
    let ghost keys = photo_ids(photo_views(catalog@));
    let mut i: usize = catalog.len();
    while i > 0
        invariant
            i <= catalog.len(),
            keys == photo_ids(photo_views(catalog@)),
            forall|j: int| i <= j < catalog.len() ==> keys[j] != id@,
        decreases i,
    {
        i -= 1;
        if catalog[i].photo_id == *id {
            proof {
                assert(keys[i as int] == catalog[i as int]@.photo_id);
                lemma_last_index_of(keys, id@);
            }
            return Some(i);
        }
        assert(keys[i as int] == catalog[i as int]@.photo_id);
    }
    proof {
        lemma_last_index_of(keys, id@);
    }
    None
}

/// The place of the record for `id` in an editable catalog.
pub fn gui_photo_index(catalog: &Vec<GUIPhotoData>, id: &String) -> (r: Option<usize>)
    ensures
        match r {
            Some(i) => i < catalog.len() && last_index_of(
                gui_photo_ids(gui_photo_views(catalog@)),
                id@,
            ) == Some(i as int),
            None => last_index_of(gui_photo_ids(gui_photo_views(catalog@)), id@) is None,
        },
{
    let ghost keys = gui_photo_ids(gui_photo_views(catalog@));
    let mut i: usize = catalog.len();
    while i > 0
        invariant
            i <= catalog.len(),
            keys == gui_photo_ids(gui_photo_views(catalog@)),
            forall|j: int| i <= j < catalog.len() ==> keys[j] != id@,
        decreases i,
    {
        i -= 1;
        if catalog[i].photo_id == *id {
            proof {
                assert(keys[i as int] == catalog[i as int]@.photo_id);
                lemma_last_index_of(keys, id@);
            }
            return Some(i);
        }
        assert(keys[i as int] == catalog[i as int]@.photo_id);
    }
    proof {
        lemma_last_index_of(keys, id@);
    }
    None
}

/// The stored catalog after reconciliation: one record for each record of
/// the manifest, in the manifest's order.
pub open spec fn merged_photos(
    catalog: Seq<PhotoDataView>,
    manifest: Seq<ImportPhotoDataView>,
    exif: Seq<Option<MinimalExifView>>,
) -> Seq<PhotoDataView> {
    Seq::new(
        manifest.len(),
        |i: int| merged_photo(find_photo(catalog, manifest[i].id), manifest[i], exif_at(exif, i)),
    )
}

/// For each record of the manifest, whether no record exists for it yet, so
/// that the metadata embedded in its file is wanted.
pub fn exif_needed(catalog: &Vec<PhotoData>, manifest: &[ImportPhotoData]) -> (r: Vec<bool>)
    ensures
        r.len() == manifest.len(),
        forall|i: int|
            0 <= i < manifest.len() ==> r[i] == (find_photo(
                photo_views(catalog@),
                #[trigger] manifest[i]@.id,
            ) is None),
{
    let mut r: Vec<bool> = Vec::new();
    let mut i: usize = 0;
    while i < manifest.len()
        invariant
            i <= manifest.len(),
            r.len() == i,
            forall|j: int|
                0 <= j < i ==> r[j] == (find_photo(
                    photo_views(catalog@),
                    #[trigger] manifest[j]@.id,
                ) is None),
        decreases manifest.len() - i,
    {
        let found = photo_index(catalog, &manifest[i].id);
        r.push(found.is_none());
        i += 1;
    }
    r
}

/// Reconciles a stored catalog with the manifest.
///
/// Returns the identifiers of the manifest and, beside each, the record of
/// that photo: see [`merged_photo`]. `exif_lst` holds, for the record at the
/// same place of the manifest, what the extraction of embedded metadata
/// gave; it is read only for a photo that has no record yet, and a missing
/// entry counts as a failed extraction. One unreadable file never fails the
/// reconciliation.
pub fn merge_photo_data_based_and_import_photo_data(
    original_photo_data_lst: &Vec<PhotoData>,
    import_photo_data_lst: &[ImportPhotoData],
    exif_lst: &[Option<MinimalExif>],
) -> (r: (Vec<String>, Vec<PhotoData>))
    ensures
        texts(r.0@) == import_ids(import_views(import_photo_data_lst@)),
        photo_views(r.1@) == merged_photos(
            photo_views(original_photo_data_lst@),
            import_views(import_photo_data_lst@),
            exif_views(exif_lst@),
        ),
{
    let ghost catalog = photo_views(original_photo_data_lst@);
    let ghost manifest = import_views(import_photo_data_lst@);
    let ghost exif = exif_views(exif_lst@);
    let mut photo_id_lst: Vec<String> = Vec::new();
    let mut photo_data_lst: Vec<PhotoData> = Vec::new();
    let mut i: usize = 0;
    while i < import_photo_data_lst.len()
        invariant
            i <= import_photo_data_lst.len(),
            catalog == photo_views(original_photo_data_lst@),
            manifest == import_views(import_photo_data_lst@),
            exif == exif_views(exif_lst@),
            photo_id_lst.len() == i,
            photo_data_lst.len() == i,
            forall|j: int| 0 <= j < i ==> photo_id_lst[j]@ == manifest[j].id,
            forall|j: int|
                0 <= j < i ==> photo_data_lst[j]@ == merged_photo(
                    find_photo(catalog, manifest[j].id),
                    manifest[j],
                    exif_at(exif, j),
                ),
        decreases import_photo_data_lst.len() - i,
    {
        let import = &import_photo_data_lst[i];
        let existing = match photo_index(original_photo_data_lst, &import.id) {
            Some(k) => Some(&original_photo_data_lst[k]),
            None => None,
        };
        let facts = if i < exif_lst.len() {
            exif_lst[i].as_ref()
        } else {
            None
        };
        assert(manifest[i as int] == import@);
        assert(exif_at(exif, i as int) == exif_view_of(facts));
        assert(photo_view_of(existing) == find_photo(catalog, import@.id));
        photo_id_lst.push(import.id.clone());
        photo_data_lst.push(merge_photo_record(existing, import, facts));
        i += 1;
    }
    assert(texts(photo_id_lst@) =~= import_ids(manifest));
    assert(photo_views(photo_data_lst@) =~= merged_photos(catalog, manifest, exif));
    (photo_id_lst, photo_data_lst)
}

/// A catalog with the record `rec` put in: in the place of the record that
/// has its identifier, or at the end where there is none.
pub open spec fn upsert(c: Seq<GUIPhotoDataView>, rec: GUIPhotoDataView) -> Seq<GUIPhotoDataView> {
    match last_index_of(gui_photo_ids(c), rec.photo_id) {
        Some(i) => c.update(i, rec),
        None => c.push(rec),
    }
}

/// The editable catalog after reconciliation.
///
/// The records of the manifest are taken in order. Each yields the record
/// [`merged_gui_photo`] of its photo, built on the record that the new
/// catalog already holds for that identifier, else on the one that the old
/// catalog holds, else on the extracted facts. The new catalog holds
/// nothing else: a photo that has left the manifest has left the catalog.
pub open spec fn reconciled_photos(
    catalog: Seq<GUIPhotoDataView>,
    manifest: Seq<ImportPhotoDataView>,
    exif: Seq<Option<MinimalExifView>>,
) -> Seq<GUIPhotoDataView>
    decreases manifest.len(),
{
    if manifest.len() == 0 {
        Seq::empty()
    } else {
        let earlier = reconciled_photos(catalog, manifest.drop_last(), exif);
        let import = manifest.last();
        let existing = match find_gui_photo(earlier, import.id) {
            Some(p) => Some(p),
            None => find_gui_photo(catalog, import.id),
        };
        upsert(earlier, merged_gui_photo(existing, import, exif_at(exif, manifest.len() - 1)))
    }
}

/// The members of a group that are among `ids`, in their order.
pub open spec fn pruned_members(members: Seq<Seq<char>>, ids: Seq<Seq<char>>) -> Seq<Seq<char>> {
    members.filter(|id: Seq<char>| ids.contains(id))
}

/// A group without the members that are not among `ids`.
pub open spec fn pruned_group(g: GUIGroupDataView, ids: Seq<Seq<char>>) -> GUIGroupDataView {
    GUIGroupDataView { photo_id_list: pruned_members(g.photo_id_list, ids), ..g }
}

/// Every group without the members that are not among `ids`.
pub open spec fn pruned_groups(gs: Seq<GUIGroupDataView>, ids: Seq<Seq<char>>) -> Seq<
    GUIGroupDataView,
> {
    gs.map_values(|g: GUIGroupDataView| pruned_group(g, ids))
}

/// Keeps the members of a group that the catalog holds a record for.
pub fn prune_members(members: &Vec<String>, catalog: &Vec<GUIPhotoData>) -> (r: Vec<String>)
    ensures
        texts(r@) == pruned_members(texts(members@), gui_photo_ids(gui_photo_views(catalog@))),
{
    let ghost ids = gui_photo_ids(gui_photo_views(catalog@));
    let ghost all = texts(members@);
    let ghost keep = |id: Seq<char>| ids.contains(id);
    let mut r: Vec<String> = Vec::new();
    let mut i: usize = 0;
    proof {
        assert(all.take(0) =~= Seq::<Seq<char>>::empty());
        assert(texts(r@) =~= Seq::<Seq<char>>::empty());
        reveal(Seq::filter);
    }
    while i < members.len()
        invariant
            i <= members.len(),
            ids == gui_photo_ids(gui_photo_views(catalog@)),
            all == texts(members@),
            keep == |id: Seq<char>| ids.contains(id),
            texts(r@) == all.take(i as int).filter(keep),
        decreases members.len() - i,
    {
        let found = gui_photo_index(catalog, &members[i]);
        proof {
            lemma_last_index_of(ids, members[i as int]@);
            reveal(Seq::filter);
            assert(all.take(i + 1).drop_last() =~= all.take(i as int));
            assert(all.take(i + 1).last() == members[i as int]@);
        }
        if found.is_some() {
            let ghost before = r@;
            r.push(members[i].clone());
            assert(texts(r@) =~= texts(before).push(members[i as int]@));
        }
        i += 1;
    }
    assert(all.take(members.len() as int) =~= all);
    r
}

/// A copy of an editable catalog.
pub fn clone_gui_photos(c: &Vec<GUIPhotoData>) -> (r: Vec<GUIPhotoData>)
    ensures
        gui_photo_views(r@) == gui_photo_views(c@),
{
    let mut r: Vec<GUIPhotoData> = Vec::new();
    let mut i: usize = 0;
    while i < c.len()
        invariant
            i <= c.len(),
            r.len() == i,
            forall|j: int| 0 <= j < i ==> r[j]@ == c[j]@,
        decreases c.len() - i,
    {
        r.push(c[i].clone());
        i += 1;
    }
    assert(gui_photo_views(r@) =~= gui_photo_views(c@));
    r
}

/// A copy of a list of editable groups.
pub fn clone_gui_groups(g: &Vec<GUIGroupData>) -> (r: Vec<GUIGroupData>)
    ensures
        gui_group_views(r@) == gui_group_views(g@),
{
    let mut r: Vec<GUIGroupData> = Vec::new();
    let mut i: usize = 0;
    while i < g.len()
        invariant
            i <= g.len(),
            r.len() == i,
            forall|j: int| 0 <= j < i ==> r[j]@ == g[j]@,
        decreases g.len() - i,
    {
        r.push(g[i].clone());
        i += 1;
    }
    assert(gui_group_views(r@) =~= gui_group_views(g@));
    r
}

/// For each record of the manifest, whether the editable catalog holds no
/// record for it, so that the metadata embedded in its file is wanted.
pub fn gui_exif_needed(catalog: &Vec<GUIPhotoData>, manifest: &[ImportPhotoData]) -> (r: Vec<bool>)
    ensures
        r.len() == manifest.len(),
        forall|i: int|
            0 <= i < manifest.len() ==> r[i] == (find_gui_photo(
                gui_photo_views(catalog@),
                #[trigger] manifest[i]@.id,
            ) is None),
{
    let mut r: Vec<bool> = Vec::new();
    let mut i: usize = 0;
    while i < manifest.len()
        invariant
            i <= manifest.len(),
            r.len() == i,
            forall|j: int|
                0 <= j < i ==> r[j] == (find_gui_photo(
                    gui_photo_views(catalog@),
                    #[trigger] manifest[j]@.id,
                ) is None),
        decreases manifest.len() - i,
    {
        let found = gui_photo_index(catalog, &manifest[i].id);
        r.push(found.is_none());
        i += 1;
    }
    r
}

/// Reconciles the editable catalog with the manifest, in place, and returns
/// a copy of the new photo records and of the new groups.
///
/// The photo records become [`reconciled_photos`]: one for each identifier
/// of the manifest, in the manifest's order, building on the old record of
/// the photo where there is one. Every group then loses the members for
/// which the new catalog holds no record; nothing else of a group changes,
/// and the groups keep their order. `exif_lst` is as for
/// [`merge_photo_data_based_and_import_photo_data`].
pub fn merge_gui_photo_data_based_and_import_photo_data(
    gui_photo_data_lst: &mut Vec<GUIPhotoData>,
    gui_group_data_lst: &mut Vec<GUIGroupData>,
    import_photo_data_lst: &[ImportPhotoData],
    exif_lst: &[Option<MinimalExif>],
) -> (r: (Vec<GUIPhotoData>, Vec<GUIGroupData>))
    ensures
        gui_photo_views(final(gui_photo_data_lst)@) == reconciled_photos(
            gui_photo_views(old(gui_photo_data_lst)@),
            import_views(import_photo_data_lst@),
            exif_views(exif_lst@),
        ),
        gui_group_views(final(gui_group_data_lst)@) == pruned_groups(
            gui_group_views(old(gui_group_data_lst)@),
            gui_photo_ids(gui_photo_views(final(gui_photo_data_lst)@)),
        ),
        gui_photo_views(r.0@) == gui_photo_views(final(gui_photo_data_lst)@),
        gui_group_views(r.1@) == gui_group_views(final(gui_group_data_lst)@),
{
    let ghost catalog = gui_photo_views(gui_photo_data_lst@);
    let ghost manifest = import_views(import_photo_data_lst@);
    let ghost exif = exif_views(exif_lst@);
    let mut photos: Vec<GUIPhotoData> = Vec::new();
    let mut i: usize = 0;
    proof {
        assert(manifest.take(0) =~= Seq::<ImportPhotoDataView>::empty());
        assert(gui_photo_views(photos@) =~= Seq::<GUIPhotoDataView>::empty());
    }
    while i < import_photo_data_lst.len()
        invariant
            i <= import_photo_data_lst.len(),
            catalog == gui_photo_views(gui_photo_data_lst@),
            manifest == import_views(import_photo_data_lst@),
            exif == exif_views(exif_lst@),
            gui_photo_views(photos@) == reconciled_photos(catalog, manifest.take(i as int), exif),
        decreases import_photo_data_lst.len() - i,
    {
        let import = &import_photo_data_lst[i];
        let facts = if i < exif_lst.len() {
            exif_lst[i].as_ref()
        } else {
            None
        };
        let ghost earlier = gui_photo_views(photos@);
        proof {
            assert(manifest.take(i + 1).drop_last() =~= manifest.take(i as int));
            assert(manifest.take(i + 1).last() == import@);
            assert(exif_at(exif, i as int) == exif_view_of(facts));
        }
        let place = gui_photo_index(&photos, &import.id);
        match place {
            Some(k) => {
                let record = merge_gui_photo_record(Some(&photos[k]), import, facts);
                photos.set(k, record);
                assert(gui_photo_views(photos@) =~= earlier.update(k as int, record@));
            },
            None => {
                let existing = match gui_photo_index(gui_photo_data_lst, &import.id) {
                    Some(k) => Some(&gui_photo_data_lst[k]),
                    None => None,
                };
                let record = merge_gui_photo_record(existing, import, facts);
                photos.push(record);
                assert(gui_photo_views(photos@) =~= earlier.push(record@));
            },
        }
        i += 1;
    }
    assert(manifest.take(import_photo_data_lst.len() as int) =~= manifest);
    let ghost ids = gui_photo_ids(gui_photo_views(photos@));
    let ghost groups = gui_group_views(gui_group_data_lst@);
    let mut pruned: Vec<GUIGroupData> = Vec::new();
    let mut j: usize = 0;
    while j < gui_group_data_lst.len()
        invariant
            j <= gui_group_data_lst.len(),
            ids == gui_photo_ids(gui_photo_views(photos@)),
            groups == gui_group_views(gui_group_data_lst@),
            pruned.len() == j,
            forall|k: int| 0 <= k < j ==> pruned[k]@ == pruned_group(groups[k], ids),
        decreases gui_group_data_lst.len() - j,
    {
        let group = &gui_group_data_lst[j];
        pruned.push(
            GUIGroupData {
                group_id: group.group_id.clone(),
                photo_id_list: prune_members(&group.photo_id_list, &photos),
                year: group.year.clone(),
                month: group.month.clone(),
                day: group.day.clone(),
                hour: group.hour.clone(),
                minutes: group.minutes.clone(),
                title: group.title.clone(),
                description: group.description.clone(),
                location: group.location.clone(),
            },
        );
        j += 1;
    }
    assert(gui_group_views(pruned@) =~= pruned_groups(groups, ids));
    let photos_copy = clone_gui_photos(&photos);
    let groups_copy = clone_gui_groups(&pruned);
    *gui_photo_data_lst = photos;
    *gui_group_data_lst = pruned;
    (photos_copy, groups_copy)
}

} // verus!
