use photag::photodata::{
    GUIGroupData, GUIPhotoData, ImportPhotoData, MinimalExif, PhotoData,
};
use photag::reconcile::{
    exif_needed, gui_exif_needed, gui_photo_index, lazy_src, merge_gui_photo_data_based_and_import_photo_data,
    merge_gui_photo_record, merge_photo_data_based_and_import_photo_data, merge_photo_record,
    normal_src, photo_index, prune_members,
};

fn s(t: &str) -> String {
    t.to_string()
}

fn some(t: &str) -> Option<String> {
    Some(t.to_string())
}

fn import(id: &str, file_name: &str, alt: &str, location: &str) -> ImportPhotoData {
    ImportPhotoData { file_name: s(file_name), id: s(id), alt: s(alt), location: s(location) }
}

fn facts() -> MinimalExif {
    MinimalExif {
        year: some("2016"),
        month: some("5"),
        day: some("4"),
        hour: some("3"),
        minutes: some("2"),
        body: some("ignored"),
        lens: some("Maker Model"),
        time: some("8"),
        focal_length: some("23"),
        f_value: some("2.8"),
        iso: some("400"),
    }
}

fn gui_photo(id: &str, title: &str, alt: &str) -> GUIPhotoData {
    GUIPhotoData {
        file_name: s("old.JPG"),
        photo_id: s(id),
        photo_src: s("somewhere"),
        photo_lazy_src: s("elsewhere"),
        alt: s(alt),
        title: s(title),
        year: s("1999"),
        month: s(""),
        day: s(""),
        hour: s(""),
        minutes: s(""),
        body: s("Body"),
        lens: s(""),
        time: s(""),
        focal_length: s(""),
        f_value: s(""),
        iso: s("200"),
        location: s("old place"),
    }
}

fn photo(id: &str, title: Option<&str>) -> PhotoData {
    PhotoData {
        file_name: s("old.JPG"),
        photo_id: s(id),
        photo_src: s("somewhere"),
        photo_lazy_src: s("elsewhere"),
        alt: s("old alt"),
        title: title.map(s),
        year: some("1999"),
        month: None,
        day: None,
        hour: None,
        minutes: None,
        body: some("Body"),
        lens: None,
        time: None,
        focal_length: None,
        f_value: None,
        iso: some("200"),
        location: s("old place"),
    }
}

fn group(id: &str, members: &[&str]) -> GUIGroupData {
    GUIGroupData {
        group_id: s(id),
        photo_id_list: members.iter().map(|m| s(m)).collect(),
        year: s(""),
        month: s(""),
        day: s(""),
        hour: s(""),
        minutes: s(""),
        title: s("Title"),
        description: s("Description"),
        location: s(""),
    }
}

#[test]
fn locators_follow_the_identifier() {
    assert_eq!(normal_src(&s("p1")), "images/normal/p1.JPG");
    assert_eq!(lazy_src(&s("p1")), "images/lazy/p1.JPG");
    assert_eq!(normal_src(&s("")), "images/normal/.JPG");
}

#[test]
fn new_photo_with_unreadable_exif_keeps_its_id() {
    let manifest = vec![import("p1", "IMG1.JPG", "lake", "X")];
    let (ids, photos) = merge_photo_data_based_and_import_photo_data(&vec![], &manifest, &[None]);
    assert_eq!(ids, vec![s("p1")]);
    assert_eq!(
        photos,
        vec![PhotoData {
            file_name: s("IMG1.JPG"),
            photo_id: s("p1"),
            photo_src: s("images/normal/p1.JPG"),
            photo_lazy_src: s("images/lazy/p1.JPG"),
            alt: s("lake"),
            title: None,
            year: None,
            month: None,
            day: None,
            hour: None,
            minutes: None,
            body: None,
            lens: None,
            time: None,
            focal_length: None,
            f_value: None,
            iso: None,
            location: s("X"),
        }]
    );
}

#[test]
fn missing_exif_entry_counts_as_unreadable() {
    let manifest = vec![import("p1", "IMG1.JPG", "lake", "X")];
    let with_none = merge_photo_data_based_and_import_photo_data(&vec![], &manifest, &[None]);
    let with_nothing = merge_photo_data_based_and_import_photo_data(&vec![], &manifest, &[]);
    assert_eq!(with_none, with_nothing);
}

#[test]
fn new_photo_takes_facts_from_exif_but_no_title_and_no_body() {
    let record = merge_photo_record(None, &import("p1", "IMG1.JPG", "lake", "X"), Some(&facts()));
    assert_eq!(
        record,
        PhotoData {
            file_name: s("IMG1.JPG"),
            photo_id: s("p1"),
            photo_src: s("images/normal/p1.JPG"),
            photo_lazy_src: s("images/lazy/p1.JPG"),
            alt: s("lake"),
            title: None,
            year: some("2016"),
            month: some("5"),
            day: some("4"),
            hour: some("3"),
            minutes: some("2"),
            body: None,
            lens: some("Maker Model"),
            time: some("8"),
            focal_length: some("23"),
            f_value: some("2.8"),
            iso: some("400"),
            location: s("X"),
        }
    );
}

#[test]
fn existing_photo_keeps_user_values_and_ignores_exif() {
    let old = photo("p1", Some("Sunset"));
    let record =
        merge_photo_record(Some(&old), &import("p1", "IMG1.JPG", "lake", "X"), Some(&facts()));
    assert_eq!(record.title, some("Sunset"));
    assert_eq!(record.year, some("1999"));
    assert_eq!(record.body, some("Body"));
    assert_eq!(record.iso, some("200"));
    assert_eq!(record.lens, None);
    assert_eq!(record.file_name, "IMG1.JPG");
    assert_eq!(record.alt, "lake");
    assert_eq!(record.location, "X");
    assert_eq!(record.photo_src, "images/normal/p1.JPG");
    assert_eq!(record.photo_lazy_src, "images/lazy/p1.JPG");
}

#[test]
fn gui_record_of_new_photo_shows_absent_facts_as_empty() {
    let mut partial = MinimalExif::empty();
    partial.year = some("2016");
    let record =
        merge_gui_photo_record(None, &import("p1", "IMG1.JPG", "lake", "X"), Some(&partial));
    assert_eq!(record.photo_id, "p1");
    assert_eq!(record.year, "2016");
    assert_eq!(record.month, "");
    assert_eq!(record.title, "");
    assert_eq!(record.body, "");
    assert_eq!(record.photo_src, "images/normal/p1.JPG");
}

#[test]
fn manifest_precedence() {
    let mut photos = vec![gui_photo("p1", "Sunset", "old alt")];
    let mut groups = vec![];
    let manifest = vec![import("p1", "old.JPG", "new alt", "old place")];
    let (new_photos, _) = merge_gui_photo_data_based_and_import_photo_data(
        &mut photos,
        &mut groups,
        &manifest,
        &[Some(facts())],
    );
    assert_eq!(new_photos.len(), 1);
    assert_eq!(new_photos[0].title, "Sunset");
    assert_eq!(new_photos[0].alt, "new alt");
    assert_eq!(new_photos[0].year, "1999");
    assert_eq!(new_photos[0].body, "Body");
    assert_eq!(new_photos, photos);
}

#[test]
fn group_pruning() {
    let mut photos = vec![gui_photo("A", "", ""), gui_photo("B", "", ""), gui_photo("C", "", "")];
    let mut groups = vec![group("g", &["A", "B", "C"]), group("h", &["B"])];
    let manifest = vec![import("A", "a.JPG", "", ""), import("C", "c.JPG", "", "")];
    let (new_photos, new_groups) = merge_gui_photo_data_based_and_import_photo_data(
        &mut photos,
        &mut groups,
        &manifest,
        &[],
    );
    assert_eq!(new_groups, vec![group("g", &["A", "C"]), group("h", &[])]);
    assert_eq!(groups, new_groups);
    assert_eq!(new_photos.iter().map(|p| p.photo_id.clone()).collect::<Vec<_>>(), vec!["A", "C"]);
}

#[test]
fn catalog_follows_manifest_order() {
    let mut photos = vec![gui_photo("A", "a", ""), gui_photo("B", "b", "")];
    let mut groups = vec![];
    let manifest = vec![
        import("B", "b.JPG", "", ""),
        import("N", "n.JPG", "", ""),
        import("A", "a.JPG", "", ""),
    ];
    merge_gui_photo_data_based_and_import_photo_data(&mut photos, &mut groups, &manifest, &[]);
    let ids: Vec<String> = photos.iter().map(|p| p.photo_id.clone()).collect();
    assert_eq!(ids, vec!["B", "N", "A"]);
    assert_eq!(photos[0].title, "b");
    assert_eq!(photos[1].title, "");
    assert_eq!(photos[2].title, "a");
    assert_eq!(photos[1].file_name, "n.JPG");
}

#[test]
fn repeated_identifier_gives_one_record() {
    let mut photos = vec![];
    let mut groups = vec![];
    let manifest = vec![
        import("A", "first.JPG", "first", ""),
        import("B", "b.JPG", "", ""),
        import("A", "second.JPG", "second", ""),
    ];
    let mut other = MinimalExif::empty();
    other.year = some("2001");
    merge_gui_photo_data_based_and_import_photo_data(
        &mut photos,
        &mut groups,
        &manifest,
        &[Some(facts()), None, Some(other)],
    );
    assert_eq!(photos.len(), 2);
    assert_eq!(photos[0].photo_id, "A");
    assert_eq!(photos[0].file_name, "second.JPG");
    assert_eq!(photos[0].alt, "second");
    assert_eq!(photos[0].year, "2016");
    assert_eq!(photos[1].photo_id, "B");
}

#[test]
fn reconciling_twice_changes_nothing() {
    let mut photos = vec![gui_photo("A", "Sunset", "old")];
    let mut groups = vec![group("g", &["A", "B", "N"])];
    let manifest = vec![
        import("N", "n.JPG", "new", "here"),
        import("A", "a.JPG", "lake", "X"),
        import("N", "n2.JPG", "newer", "there"),
    ];
    let first = merge_gui_photo_data_based_and_import_photo_data(
        &mut photos,
        &mut groups,
        &manifest,
        &[Some(facts()), None, None],
    );
    let second = merge_gui_photo_data_based_and_import_photo_data(
        &mut photos,
        &mut groups,
        &manifest,
        &[None, Some(facts()), Some(facts())],
    );
    assert_eq!(first, second);
    assert_eq!(second.0, photos);
    assert_eq!(second.1, groups);
    assert_eq!(groups, vec![group("g", &["A", "N"])]);
}

#[test]
fn stored_catalog_is_reconciled_record_by_record() {
    let catalog = vec![photo("A", Some("Sunset")), photo("B", None)];
    let manifest = vec![import("B", "b.JPG", "bee", "X"), import("N", "n.JPG", "new", "Y")];
    let (ids, photos) = merge_photo_data_based_and_import_photo_data(
        &catalog,
        &manifest,
        &[Some(facts()), Some(facts())],
    );
    assert_eq!(ids, vec!["B", "N"]);
    assert_eq!(photos.len(), 2);
    assert_eq!(photos[0].title, None);
    assert_eq!(photos[0].year, some("1999"));
    assert_eq!(photos[0].alt, "bee");
    assert_eq!(photos[1].year, some("2016"));
    assert_eq!(photos[1].photo_id, "N");
    assert_eq!(exif_needed(&catalog, &manifest), vec![false, true]);
}

#[test]
fn lookup_takes_the_last_record_of_an_identifier() {
    let catalog = vec![photo("A", Some("one")), photo("B", None), photo("A", Some("two"))];
    assert_eq!(photo_index(&catalog, &s("A")), Some(2));
    assert_eq!(photo_index(&catalog, &s("B")), Some(1));
    assert_eq!(photo_index(&catalog, &s("C")), None);
    let gui = vec![gui_photo("A", "", ""), gui_photo("A", "", "")];
    assert_eq!(gui_photo_index(&gui, &s("A")), Some(1));
    assert_eq!(gui_photo_index(&gui, &s("")), None);
}

#[test]
fn prune_members_keeps_order_and_repetitions() {
    let catalog = vec![gui_photo("A", "", ""), gui_photo("C", "", "")];
    let members = vec![s("C"), s("B"), s("A"), s("C")];
    assert_eq!(prune_members(&members, &catalog), vec!["C", "A", "C"]);
}

#[test]
fn exif_is_wanted_for_photos_without_a_record() {
    let catalog = vec![gui_photo("A", "", "")];
    let manifest = vec![import("N", "n.JPG", "", ""), import("A", "a.JPG", "", "")];
    assert_eq!(gui_exif_needed(&catalog, &manifest), vec![true, false]);
    assert_eq!(gui_exif_needed(&catalog, &[]), vec![]);
}
