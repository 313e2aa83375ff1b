//! What holds of every reconciliation: the identifiers of the new catalog,
//! the precedence of the manifest, and that reconciling twice changes
//! nothing.

use vstd::prelude::*;
use crate::lookup::{distinct, last_index_of, lemma_last_index_of};
use crate::photodata::{
    GUIGroupDataView, GUIPhotoDataView, ImportPhotoDataView, MinimalExifView, PhotoDataView,
};
use crate::reconcile::{
    exif_at, find_gui_photo, find_photo, gui_photo_ids, import_ids, lazy_locator,
    merged_gui_photo, merged_photo, merged_photos, normal_locator, photo_ids, pruned_groups, pruned_members, reconciled_photos, upsert,
};

verus! {

/// The values of a record that belong to the user: all but the file name,
/// the identifier, the description, the location and the locators.
pub open spec fn same_user_values(a: GUIPhotoDataView, b: GUIPhotoDataView) -> bool {
    &&& a.title == b.title
    &&& a.year == b.year
    &&& a.month == b.month
    &&& a.day == b.day
    &&& a.hour == b.hour
    &&& a.minutes == b.minutes
    &&& a.body == b.body
    &&& a.lens == b.lens
    &&& a.time == b.time
    &&& a.focal_length == b.focal_length
    &&& a.f_value == b.f_value
    &&& a.iso == b.iso
}

/// The values of a record that the manifest decides are those of `import`,
/// and its locators are those of its identifier.
pub open spec fn follows_manifest(p: GUIPhotoDataView, import: ImportPhotoDataView) -> bool {
    &&& p.file_name == import.file_name
    &&& p.photo_id == import.id
    &&& p.alt == import.alt
    &&& p.location == import.location
    &&& p.photo_src == normal_locator(import.id)
    &&& p.photo_lazy_src == lazy_locator(import.id)
}

/// Manifest precedence, for one record: reconciling a record that exists
/// keeps every value that belongs to the user, whatever was extracted from
/// the file, and takes file name, description and location from the
/// manifest.
pub proof fn lemma_manifest_precedence(
    existing: GUIPhotoDataView,
    import: ImportPhotoDataView,
    exif: Option<MinimalExifView>,
)
    ensures
        same_user_values(merged_gui_photo(Some(existing), import, exif), existing),
        follows_manifest(merged_gui_photo(Some(existing), import, exif), import),
{
}

/// A record follows the manifest whether it existed before or not.
pub proof fn lemma_merged_follows_manifest(
    existing: Option<GUIPhotoDataView>,
    import: ImportPhotoDataView,
    exif: Option<MinimalExifView>,
)
    ensures
        follows_manifest(merged_gui_photo(existing, import, exif), import),
{
}

/// Putting a record into a catalog without repeated identifiers leaves it
/// without repeated identifiers; the record is then found under its
/// identifier, and every other identifier finds what it found before.
pub proof fn lemma_upsert(c: Seq<GUIPhotoDataView>, rec: GUIPhotoDataView, id: Seq<char>)
    requires
        distinct(gui_photo_ids(c)),
    ensures
        distinct(gui_photo_ids(upsert(c, rec))),
        find_gui_photo(upsert(c, rec), id) == if id == rec.photo_id {
            Some(rec)
        } else {
            find_gui_photo(c, id)
        },
        gui_photo_ids(upsert(c, rec)) == if gui_photo_ids(c).contains(rec.photo_id) {
            gui_photo_ids(c)
        } else {
            gui_photo_ids(c).push(rec.photo_id)
        },
{
    let ids = gui_photo_ids(c);
    let after = upsert(c, rec);
    let ids_after = gui_photo_ids(after);
    lemma_last_index_of(ids, rec.photo_id);
    lemma_last_index_of(ids, id);
    lemma_last_index_of(ids_after, id);
    match last_index_of(ids, rec.photo_id) {
        Some(i) => {
            assert(ids_after =~= ids);
            assert(after[i] == rec);
        },
        None => {
            assert(ids_after =~= ids.push(rec.photo_id));
            assert(after[c.len() as int] == rec);
            assert(!ids.contains(rec.photo_id));
            assert(ids_after[c.len() as int] == rec.photo_id);
        },
    }
    assert(distinct(ids_after));
    match last_index_of(ids_after, id) {
        Some(k) => {
            if id == rec.photo_id {
                assert(after[k] == rec);
            } else {
                assert(k < c.len());
                assert(ids[k] == id);
                assert(after[k] == c[k]);
                assert(last_index_of(ids, id) == Some(k));
            }
        },
        None => {
            if id == rec.photo_id {
                match last_index_of(ids, rec.photo_id) {
                    Some(i) => {
                        assert(ids_after[i] == id);
                    },
                    None => {
                        assert(ids_after[c.len() as int] == id);
                    },
                }
            } else {
                assert forall|j: int| 0 <= j < ids.len() implies ids[j] != id by {
                    assert(ids_after[j] == ids[j]);
                }
            }
        },
    }
}

/// The new catalog holds no identifier twice, and its identifiers are those
/// of the manifest: a photo is in the new catalog exactly when the manifest
/// names it.
pub proof fn lemma_reconciled_ids(
    catalog: Seq<GUIPhotoDataView>,
    manifest: Seq<ImportPhotoDataView>,
    exif: Seq<Option<MinimalExifView>>,
)
    ensures
        distinct(gui_photo_ids(reconciled_photos(catalog, manifest, exif))),
        forall|id: Seq<char>|
            gui_photo_ids(reconciled_photos(catalog, manifest, exif)).contains(id) <==> import_ids(
                manifest,
            ).contains(id),
    decreases manifest.len(),
{
    let after = reconciled_photos(catalog, manifest, exif);
    if manifest.len() == 0 {
        assert(gui_photo_ids(after) =~= Seq::<Seq<char>>::empty());
        assert(import_ids(manifest) =~= Seq::<Seq<char>>::empty());
    } else {
        let earlier = reconciled_photos(catalog, manifest.drop_last(), exif);
        let import = manifest.last();
        let existing = match find_gui_photo(earlier, import.id) {
            Some(p) => Some(p),
            None => find_gui_photo(catalog, import.id),
        };
        let rec = merged_gui_photo(existing, import, exif_at(exif, manifest.len() - 1));
        lemma_reconciled_ids(catalog, manifest.drop_last(), exif);
        lemma_upsert(earlier, rec, import.id);
        assert(import_ids(manifest) =~= import_ids(manifest.drop_last()).push(import.id));
        let before_ids = import_ids(manifest.drop_last());
        assert forall|id: Seq<char>|
            gui_photo_ids(after).contains(id) <==> import_ids(manifest).contains(id) by {
            if import_ids(manifest).contains(id) {
                let k = choose|k: int|
                    0 <= k < import_ids(manifest).len() && import_ids(manifest)[k] == id;
                if k < before_ids.len() {
                    assert(before_ids[k] == id);
                    assert(before_ids.contains(id));
                    assert(gui_photo_ids(earlier).contains(id));
                    let j = choose|j: int|
                        0 <= j < gui_photo_ids(earlier).len() && gui_photo_ids(earlier)[j] == id;
                    if gui_photo_ids(earlier).contains(rec.photo_id) {
                    } else {
                        assert(gui_photo_ids(after)[j] == id);
                    }
                } else {
                    assert(id == import.id);
                    if gui_photo_ids(earlier).contains(rec.photo_id) {
                    } else {
                        assert(gui_photo_ids(after)[gui_photo_ids(earlier).len() as int] == id);
                    }
                }
            }
            if gui_photo_ids(after).contains(id) {
                let j = choose|j: int|
                    0 <= j < gui_photo_ids(after).len() && gui_photo_ids(after)[j] == id;
                if j < gui_photo_ids(earlier).len() {
                    assert(gui_photo_ids(earlier)[j] == id);
                    assert(gui_photo_ids(earlier).contains(id));
                    assert(before_ids.contains(id));
                    let k = choose|k: int| 0 <= k < before_ids.len() && before_ids[k] == id;
                    assert(import_ids(manifest)[k] == id);
                } else {
                    assert(id == import.id);
                    assert(import_ids(manifest)[manifest.len() - 1] == id);
                }
            }
        }
    }
}

/// Taking one more record of the manifest leaves every record that the new
/// catalog already held in it, with the user's values as they were.
pub proof fn lemma_step_keeps_user_values(
    catalog: Seq<GUIPhotoDataView>,
    manifest: Seq<ImportPhotoDataView>,
    exif: Seq<Option<MinimalExifView>>,
    id: Seq<char>,
)
    requires
        manifest.len() > 0,
        find_gui_photo(reconciled_photos(catalog, manifest.drop_last(), exif), id) is Some,
    ensures
        find_gui_photo(reconciled_photos(catalog, manifest, exif), id) is Some,
        same_user_values(
            find_gui_photo(reconciled_photos(catalog, manifest, exif), id)->0,
            find_gui_photo(reconciled_photos(catalog, manifest.drop_last(), exif), id)->0,
        ),
{
    let earlier = reconciled_photos(catalog, manifest.drop_last(), exif);
    let import = manifest.last();
    let existing = match find_gui_photo(earlier, import.id) {
        Some(p) => Some(p),
        None => find_gui_photo(catalog, import.id),
    };
    let rec = merged_gui_photo(existing, import, exif_at(exif, manifest.len() - 1));
    lemma_reconciled_ids(catalog, manifest.drop_last(), exif);
    lemma_upsert(earlier, rec, id);
}

/// A record that the new catalog holds after the first `n` records of the
/// manifest is still held at the end, with the user's values as they were.
pub proof fn lemma_user_values_kept(
    catalog: Seq<GUIPhotoDataView>,
    manifest: Seq<ImportPhotoDataView>,
    exif: Seq<Option<MinimalExifView>>,
    n: int,
    id: Seq<char>,
)
    requires
        0 <= n <= manifest.len(),
        find_gui_photo(reconciled_photos(catalog, manifest.take(n), exif), id) is Some,
    ensures
        find_gui_photo(reconciled_photos(catalog, manifest, exif), id) is Some,
        same_user_values(
            find_gui_photo(reconciled_photos(catalog, manifest, exif), id)->0,
            find_gui_photo(reconciled_photos(catalog, manifest.take(n), exif), id)->0,
        ),
    decreases manifest.len(),
{
    if n == manifest.len() {
        assert(manifest.take(n) =~= manifest);
    } else {
        assert(manifest.drop_last().take(n) =~= manifest.take(n));
        lemma_user_values_kept(catalog, manifest.drop_last(), exif, n, id);
        lemma_step_keeps_user_values(catalog, manifest, exif, id);
    }
}

/// Reconciling the result of a reconciliation with the first `n` records of
/// the same manifest gives what the first reconciliation gave for them,
/// whatever is extracted from the files the second time.
pub proof fn lemma_second_pass(
    catalog: Seq<GUIPhotoDataView>,
    manifest: Seq<ImportPhotoDataView>,
    exif1: Seq<Option<MinimalExifView>>,
    exif2: Seq<Option<MinimalExifView>>,
    n: int,
)
    requires
        0 <= n <= manifest.len(),
    ensures
        reconciled_photos(
            reconciled_photos(catalog, manifest, exif1),
            manifest.take(n),
            exif2,
        ) == reconciled_photos(catalog, manifest.take(n), exif1),
    decreases n,
{
    let first = reconciled_photos(catalog, manifest, exif1);
    let part = manifest.take(n);
    if n > 0 {
        lemma_second_pass(catalog, manifest, exif1, exif2, n - 1);
        assert(part.drop_last() =~= manifest.take(n - 1));
        let earlier = reconciled_photos(catalog, part.drop_last(), exif1);
        let import = part.last();
        match find_gui_photo(earlier, import.id) {
            Some(p) => {},
            None => {
                let rec = merged_gui_photo(
                    find_gui_photo(catalog, import.id),
                    import,
                    exif_at(exif1, n - 1),
                );
                lemma_reconciled_ids(catalog, part.drop_last(), exif1);
                lemma_upsert(earlier, rec, import.id);
                lemma_user_values_kept(catalog, manifest, exif1, n, import.id);
            },
        }
    }
}

/// Filtering with a condition that every element meets changes nothing.
pub proof fn lemma_filter_all<A>(s: Seq<A>, pred: spec_fn(A) -> bool)
    requires
        forall|i: int| 0 <= i < s.len() ==> pred(#[trigger] s[i]),
    ensures
        s.filter(pred) == s,
    decreases s.len(),
{
    reveal(Seq::filter);
    if s.len() > 0 {
        assert forall|i: int| 0 <= i < s.drop_last().len() implies pred(
            #[trigger] s.drop_last()[i],
        ) by {
            assert(s.drop_last()[i] == s[i]);
        }
        lemma_filter_all(s.drop_last(), pred);
        assert(pred(s[s.len() - 1]));
        assert(s.drop_last().push(s.last()) =~= s);
    }
}

/// Pruning the members of a group twice against the same identifiers gives
/// what pruning once gives.
pub proof fn lemma_prune_twice(members: Seq<Seq<char>>, ids: Seq<Seq<char>>)
    ensures
        pruned_members(pruned_members(members, ids), ids) == pruned_members(members, ids),
{
    let keep = |id: Seq<char>| ids.contains(id);
    let once = members.filter(keep);
    assert forall|i: int| 0 <= i < once.len() implies keep(#[trigger] once[i]) by {
        members.lemma_filter_pred(keep, i);
    }
    lemma_filter_all(once, keep);
}

/// Idempotence: reconciling an unchanged manifest a second time changes
/// neither the photo records nor the groups, whatever is extracted from the
/// files either time.
pub proof fn lemma_reconcile_idempotent(
    catalog: Seq<GUIPhotoDataView>,
    groups: Seq<GUIGroupDataView>,
    manifest: Seq<ImportPhotoDataView>,
    exif1: Seq<Option<MinimalExifView>>,
    exif2: Seq<Option<MinimalExifView>>,
)
    ensures
        ({
            let photos = reconciled_photos(catalog, manifest, exif1);
            let pruned = pruned_groups(groups, gui_photo_ids(photos));
            &&& reconciled_photos(photos, manifest, exif2) == photos
            &&& pruned_groups(pruned, gui_photo_ids(photos)) == pruned
        }),
{
    let photos = reconciled_photos(catalog, manifest, exif1);
    let ids = gui_photo_ids(photos);
    let pruned = pruned_groups(groups, ids);
    lemma_second_pass(catalog, manifest, exif1, exif2, manifest.len() as int);
    assert(manifest.take(manifest.len() as int) =~= manifest);
    assert forall|k: int| 0 <= k < pruned.len() implies #[trigger] pruned_groups(pruned, ids)[k]
        == pruned[k] by {
        lemma_prune_twice(groups[k].photo_id_list, ids);
    }
    assert(pruned_groups(pruned, ids) =~= pruned);
}

/// Manifest precedence, for the catalog: a photo that has a record and is
/// named by the manifest keeps, through reconciliation, every value that
/// belongs to the user.
pub proof fn lemma_reconciled_keeps_user_values(
    catalog: Seq<GUIPhotoDataView>,
    manifest: Seq<ImportPhotoDataView>,
    exif: Seq<Option<MinimalExifView>>,
    id: Seq<char>,
)
    requires
        import_ids(manifest).contains(id),
        find_gui_photo(catalog, id) is Some,
    ensures
        find_gui_photo(reconciled_photos(catalog, manifest, exif), id) is Some,
        same_user_values(
            find_gui_photo(reconciled_photos(catalog, manifest, exif), id)->0,
            find_gui_photo(catalog, id)->0,
        ),
    decreases manifest.len(),
{
    let earlier_ids = import_ids(manifest.drop_last());
    let k = choose|k: int| 0 <= k < import_ids(manifest).len() && import_ids(manifest)[k] == id;
    assert(manifest.len() > 0);
    if earlier_ids.contains(id) {
        lemma_reconciled_keeps_user_values(catalog, manifest.drop_last(), exif, id);
        lemma_step_keeps_user_values(catalog, manifest, exif, id);
    } else {
        if k < manifest.len() - 1 {
            assert(earlier_ids[k] == id);
        }
        assert(manifest.last().id == id);
        let earlier = reconciled_photos(catalog, manifest.drop_last(), exif);
        lemma_reconciled_ids(catalog, manifest.drop_last(), exif);
        lemma_last_index_of(gui_photo_ids(earlier), id);
        let rec = merged_gui_photo(
            find_gui_photo(catalog, id),
            manifest.last(),
            exif_at(exif, manifest.len() - 1),
        );
        lemma_upsert(earlier, rec, id);
    }
}

/// The manifest decides: after reconciliation, the record of a photo has
/// the file name, the description and the location of the last record that
/// the manifest holds for it, and the locators of its identifier.
pub proof fn lemma_reconciled_follows_manifest(
    catalog: Seq<GUIPhotoDataView>,
    manifest: Seq<ImportPhotoDataView>,
    exif: Seq<Option<MinimalExifView>>,
    k: int,
)
    requires
        0 <= k < manifest.len(),
        forall|j: int| k < j < manifest.len() ==> manifest[j].id != manifest[k].id,
    ensures
        find_gui_photo(reconciled_photos(catalog, manifest, exif), manifest[k].id) is Some,
        follows_manifest(
            find_gui_photo(reconciled_photos(catalog, manifest, exif), manifest[k].id)->0,
            manifest[k],
        ),
    decreases manifest.len(),
{
    let id = manifest[k].id;
    let earlier = reconciled_photos(catalog, manifest.drop_last(), exif);
    let import = manifest.last();
    let existing = match find_gui_photo(earlier, import.id) {
        Some(p) => Some(p),
        None => find_gui_photo(catalog, import.id),
    };
    let rec = merged_gui_photo(existing, import, exif_at(exif, manifest.len() - 1));
    lemma_reconciled_ids(catalog, manifest.drop_last(), exif);
    lemma_upsert(earlier, rec, id);
    if k < manifest.len() - 1 {
        assert(manifest.drop_last()[k] == manifest[k]);
        assert forall|j: int| k < j < manifest.drop_last().len() implies manifest.drop_last()[j].id
            != manifest.drop_last()[k].id by {
            assert(manifest.drop_last()[j] == manifest[j]);
        }
        lemma_reconciled_follows_manifest(catalog, manifest.drop_last(), exif, k);
    }
}

/// A photo that is new takes its values from the facts extracted from the
/// file of the first record that the manifest holds for it.
pub proof fn lemma_reconciled_new_photo(
    catalog: Seq<GUIPhotoDataView>,
    manifest: Seq<ImportPhotoDataView>,
    exif: Seq<Option<MinimalExifView>>,
    n: int,
)
    requires
        0 <= n < manifest.len(),
        forall|j: int| 0 <= j < n ==> manifest[j].id != manifest[n].id,
        find_gui_photo(catalog, manifest[n].id) is None,
    ensures
        find_gui_photo(reconciled_photos(catalog, manifest, exif), manifest[n].id) is Some,
        same_user_values(
            find_gui_photo(reconciled_photos(catalog, manifest, exif), manifest[n].id)->0,
            merged_gui_photo(None, manifest[n], exif_at(exif, n)),
        ),
{
    let id = manifest[n].id;
    let part = manifest.take(n + 1);
    assert(part.drop_last() =~= manifest.take(n));
    assert(part.last() == manifest[n]);
    let earlier = reconciled_photos(catalog, part.drop_last(), exif);
    lemma_reconciled_ids(catalog, part.drop_last(), exif);
    lemma_last_index_of(gui_photo_ids(earlier), id);
    if import_ids(manifest.take(n)).contains(id) {
        let j = choose|j: int|
            0 <= j < import_ids(manifest.take(n)).len() && import_ids(manifest.take(n))[j] == id;
        assert(manifest.take(n)[j] == manifest[j]);
    }
    let rec = merged_gui_photo(None, manifest[n], exif_at(exif, n));
    lemma_upsert(earlier, rec, id);
    lemma_user_values_kept(catalog, manifest, exif, n + 1, id);
}

/// Group pruning: a member stays in a group exactly when the new catalog
/// holds a record for it.
pub proof fn lemma_pruned_members(members: Seq<Seq<char>>, ids: Seq<Seq<char>>, id: Seq<char>)
    ensures
        pruned_members(members, ids).contains(id) <==> members.contains(id) && ids.contains(id),
        pruned_members(members, ids).len() <= members.len(),
{
    let keep = |id: Seq<char>| ids.contains(id);
    let kept = members.filter(keep);
    members.lemma_filter_len(keep);
    if kept.contains(id) {
        let i = choose|i: int| 0 <= i < kept.len() && kept[i] == id;
        members.lemma_filter_pred(keep, i);
        lemma_filter_is_part(members, keep, i);
    }
    if members.contains(id) && ids.contains(id) {
        let i = choose|i: int| 0 <= i < members.len() && members[i] == id;
        members.lemma_filter_contains(keep, i);
    }
}

/// Every element of a filtered sequence is an element of the sequence.
pub proof fn lemma_filter_is_part<A>(s: Seq<A>, pred: spec_fn(A) -> bool, i: int)
    requires
        0 <= i < s.filter(pred).len(),
    ensures
        s.contains(s.filter(pred)[i]),
    decreases s.len(),
{
    reveal(Seq::filter);
    if s.len() > 0 {
        let earlier = s.drop_last().filter(pred);
        if i < earlier.len() {
            lemma_filter_is_part(s.drop_last(), pred, i);
            let j = choose|j: int| 0 <= j < s.drop_last().len() && s.drop_last()[j] == earlier[i];
            assert(s[j] == earlier[i]);
        } else {
            assert(s[s.len() - 1] == s.last());
        }
    }
}

/// The values of a stored record that belong to the user.
pub open spec fn same_stored_user_values(a: PhotoDataView, b: PhotoDataView) -> bool {
    &&& a.title == b.title
    &&& a.year == b.year
    &&& a.month == b.month
    &&& a.day == b.day
    &&& a.hour == b.hour
    &&& a.minutes == b.minutes
    &&& a.body == b.body
    &&& a.lens == b.lens
    &&& a.time == b.time
    &&& a.focal_length == b.focal_length
    &&& a.f_value == b.f_value
    &&& a.iso == b.iso
}

/// Where the manifest names a photo without a record more than once, the
/// same facts were extracted for each of its records.
pub open spec fn consistent_facts(
    catalog: Seq<PhotoDataView>,
    manifest: Seq<ImportPhotoDataView>,
    exif: Seq<Option<MinimalExifView>>,
) -> bool {
    forall|i: int, j: int|
        #![trigger manifest[i], manifest[j]]
        0 <= i < manifest.len() && 0 <= j < manifest.len() && manifest[i].id == manifest[j].id
            && find_photo(catalog, manifest[i].id) is None ==> same_stored_user_values(
            merged_photo(None, manifest[i], exif_at(exif, i)),
            merged_photo(None, manifest[j], exif_at(exif, j)),
        )
}

/// Idempotence of the reconciliation of a stored catalog: reconciling its
/// result with the same manifest changes nothing, whatever is extracted
/// the second time, provided the first extraction was consistent.
pub proof fn lemma_merge_idempotent(
    catalog: Seq<PhotoDataView>,
    manifest: Seq<ImportPhotoDataView>,
    exif1: Seq<Option<MinimalExifView>>,
    exif2: Seq<Option<MinimalExifView>>,
)
    requires
        consistent_facts(catalog, manifest, exif1),
    ensures
        merged_photos(merged_photos(catalog, manifest, exif1), manifest, exif2) == merged_photos(
            catalog,
            manifest,
            exif1,
        ),
{
    let first = merged_photos(catalog, manifest, exif1);
    let second = merged_photos(first, manifest, exif2);
    assert(photo_ids(first) =~= import_ids(manifest));
    assert forall|i: int| 0 <= i < manifest.len() implies second[i] == first[i] by {
        let id = manifest[i].id;
        lemma_last_index_of(photo_ids(first), id);
        assert(photo_ids(first)[i] == id);
        let k = last_index_of(photo_ids(first), id)->0;
        assert(photo_ids(first)[k] == manifest[k].id);
        assert(manifest[k].id == manifest[i].id);
        assert(find_photo(first, id) == Some(first[k]));
        if find_photo(catalog, id) is None {
            assert(same_stored_user_values(
                merged_photo(None, manifest[i], exif_at(exif1, i)),
                merged_photo(None, manifest[k], exif_at(exif1, k)),
            ));
        }
    }
    assert(second =~= first);
}

/// The two shapes of a record agree: reconciling an editable record gives
/// the editable shape of what reconciling the stored record gives.
pub proof fn lemma_merge_shapes_agree(
    existing: Option<PhotoDataView>,
    import: ImportPhotoDataView,
    exif: Option<MinimalExifView>,
)
    ensures
        merged_gui_photo(
            match existing {
                Some(p) => Some(p.to_gui()),
                None => None,
            },
            import,
            exif,
        ) == merged_photo(existing, import, exif).to_gui(),
{
}

/// The editable catalog, reconciled record by record: the record at each
/// place of the manifest, built on the old record of its photo.
pub open spec fn reconciled_one_by_one(
    catalog: Seq<GUIPhotoDataView>,
    manifest: Seq<ImportPhotoDataView>,
    exif: Seq<Option<MinimalExifView>>,
) -> Seq<GUIPhotoDataView> {
    Seq::new(
        manifest.len(),
        |i: int|
            merged_gui_photo(
                find_gui_photo(catalog, manifest[i].id),
                manifest[i],
                exif_at(exif, i),
            ),
    )
}

/// Where the manifest names no photo twice, the new catalog holds, at the
/// place of each record of the manifest, the record of that photo built on
/// its old record or, for a new photo, on the facts extracted from its
/// file.
pub proof fn lemma_reconciled_one_by_one(
    catalog: Seq<GUIPhotoDataView>,
    manifest: Seq<ImportPhotoDataView>,
    exif: Seq<Option<MinimalExifView>>,
)
    requires
        distinct(import_ids(manifest)),
    ensures
        reconciled_photos(catalog, manifest, exif) == reconciled_one_by_one(
            catalog,
            manifest,
            exif,
        ),
    decreases manifest.len(),
{
    if manifest.len() == 0 {
        assert(reconciled_photos(catalog, manifest, exif) =~= reconciled_one_by_one(
            catalog,
            manifest,
            exif,
        ));
    } else {
        let before = manifest.drop_last();
        let import = manifest.last();
        assert forall|i: int, j: int| 0 <= i < j < import_ids(before).len() implies import_ids(
            before,
        )[i] != import_ids(before)[j] by {
            assert(import_ids(manifest)[i] == import_ids(before)[i]);
            assert(import_ids(manifest)[j] == import_ids(before)[j]);
        }
        lemma_reconciled_one_by_one(catalog, before, exif);
        let earlier = reconciled_photos(catalog, before, exif);
        assert(gui_photo_ids(earlier) =~= import_ids(before));
        assert forall|j: int| 0 <= j < gui_photo_ids(earlier).len() implies gui_photo_ids(
            earlier,
        )[j] != import.id by {
            assert(import_ids(manifest)[j] == import_ids(before)[j]);
            assert(import_ids(manifest)[manifest.len() - 1] == import.id);
        }
        lemma_last_index_of(gui_photo_ids(earlier), import.id);
        assert(reconciled_photos(catalog, manifest, exif) =~= reconciled_one_by_one(
            catalog,
            manifest,
            exif,
        ));
    }
}

/// The locators of a record are those of its identifier.
pub open spec fn has_own_locators(p: GUIPhotoDataView) -> bool {
    &&& p.photo_src == normal_locator(p.photo_id)
    &&& p.photo_lazy_src == lazy_locator(p.photo_id)
}

/// Every record of the new catalog has the locators of its identifier,
/// whatever the old catalog held as locators.
pub proof fn lemma_reconciled_locators(
    catalog: Seq<GUIPhotoDataView>,
    manifest: Seq<ImportPhotoDataView>,
    exif: Seq<Option<MinimalExifView>>,
    i: int,
)
    requires
        0 <= i < reconciled_photos(catalog, manifest, exif).len(),
    ensures
        has_own_locators(reconciled_photos(catalog, manifest, exif)[i]),
    decreases manifest.len(),
{
    if manifest.len() > 0 {
        let earlier = reconciled_photos(catalog, manifest.drop_last(), exif);
        let import = manifest.last();
        let existing = match find_gui_photo(earlier, import.id) {
            Some(p) => Some(p),
            None => find_gui_photo(catalog, import.id),
        };
        let rec = merged_gui_photo(existing, import, exif_at(exif, manifest.len() - 1));
        lemma_last_index_of(gui_photo_ids(earlier), rec.photo_id);
        if reconciled_photos(catalog, manifest, exif)[i] != rec {
            lemma_reconciled_locators(catalog, manifest.drop_last(), exif, i);
        }
    }
}

} // verus!
