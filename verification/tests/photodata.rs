use photag::photodata::{
    group_data_to_gui_group_data, gui_group_data_to_group_data,
    gui_photo_data_to_import_photo_data, gui_photo_data_to_photo_data,
    make_dummy_gui_group_data, photo_data_to_gui_photo_data, GUIGroupData, GUIPhotoData, GroupData,
    ImportPhotoData, PhotoData,
};

fn s(t: &str) -> String {
    t.to_string()
}

fn some(t: &str) -> Option<String> {
    Some(t.to_string())
}

fn full_photo() -> PhotoData {
    PhotoData {
        file_name: s("IMG1.JPG"),
        photo_id: s("p1"),
        photo_src: s("images/normal/p1.JPG"),
        photo_lazy_src: s("images/lazy/p1.JPG"),
        alt: s("lake"),
        title: some("Sunset"),
        year: some("2016"),
        month: some("5"),
        day: some("4"),
        hour: some("3"),
        minutes: some("2"),
        body: some("X-T3"),
        lens: some("XF 23mm"),
        time: some("1/250"),
        focal_length: some("23"),
        f_value: some("2.8"),
        iso: some("400"),
        location: s("X"),
    }
}

fn full_gui_photo() -> GUIPhotoData {
    GUIPhotoData {
        file_name: s("IMG1.JPG"),
        photo_id: s("p1"),
        photo_src: s("images/normal/p1.JPG"),
        photo_lazy_src: s("images/lazy/p1.JPG"),
        alt: s("lake"),
        title: s("Sunset"),
        year: s("2016"),
        month: s("5"),
        day: s("4"),
        hour: s("3"),
        minutes: s("2"),
        body: s("X-T3"),
        lens: s("XF 23mm"),
        time: s("1/250"),
        focal_length: s("23"),
        f_value: s("2.8"),
        iso: s("400"),
        location: s("X"),
    }
}

#[test]
fn photo_to_gui_keeps_every_value() {
    assert_eq!(photo_data_to_gui_photo_data(full_photo()), full_gui_photo());
}

#[test]
fn gui_to_photo_keeps_every_value() {
    assert_eq!(gui_photo_data_to_photo_data(full_gui_photo()), full_photo());
}

#[test]
fn photo_round_trip_with_all_values_present() {
    let back = gui_photo_data_to_photo_data(photo_data_to_gui_photo_data(full_photo()));
    assert_eq!(back, full_photo());
}

#[test]
fn empty_gui_texts_are_absent_values_and_back() {
    let mut gui = full_gui_photo();
    gui.title = s("");
    gui.iso = s("");
    gui.body = s("");
    let photo = gui_photo_data_to_photo_data(gui.clone());
    assert_eq!(photo.title, None);
    assert_eq!(photo.iso, None);
    assert_eq!(photo.body, None);
    assert_eq!(photo.year, some("2016"));
    assert_eq!(photo.alt, s("lake"));
    let back = photo_data_to_gui_photo_data(photo);
    assert_eq!(back, gui);
    assert_eq!(back.title, "");
}

#[test]
fn present_and_empty_value_is_not_kept_by_round_trip() {
    let mut photo = full_photo();
    photo.title = some("");
    let back = gui_photo_data_to_photo_data(photo_data_to_gui_photo_data(photo));
    assert_eq!(back.title, None);
}

#[test]
fn gui_photo_to_import_takes_four_values() {
    assert_eq!(
        gui_photo_data_to_import_photo_data(full_gui_photo()),
        ImportPhotoData { file_name: s("IMG1.JPG"), id: s("p1"), alt: s("lake"), location: s("X") }
    );
}

#[test]
fn dummy_group_is_blank() {
    assert_eq!(
        make_dummy_gui_group_data(),
        GUIGroupData {
            group_id: s(""),
            photo_id_list: vec![],
            year: s(""),
            month: s(""),
            day: s(""),
            hour: s(""),
            minutes: s(""),
            title: s(""),
            description: s(""),
            location: s(""),
        }
    );
}

fn gui_group() -> GUIGroupData {
    GUIGroupData {
        group_id: s("g1"),
        photo_id_list: vec![s("A"), s("B")],
        year: s("2020"),
        month: s(""),
        day: s("3"),
        hour: s(""),
        minutes: s(""),
        title: s("Trip"),
        description: s("A trip"),
        location: s(""),
    }
}

fn group() -> GroupData {
    GroupData {
        group_id: s("g1"),
        photo_id_list: vec![s("A"), s("B")],
        year: some("2020"),
        month: None,
        day: some("3"),
        hour: None,
        minutes: None,
        title: s("Trip"),
        description: s("A trip"),
        location: None,
    }
}

#[test]
fn gui_group_to_group_drops_empty_texts() {
    assert_eq!(gui_group_data_to_group_data(gui_group()), group());
}

#[test]
fn group_to_gui_group_shows_absent_values_as_empty() {
    assert_eq!(group_data_to_gui_group_data(group()), gui_group());
}

#[test]
fn group_round_trip() {
    assert_eq!(gui_group_data_to_group_data(group_data_to_gui_group_data(group())), group());
    assert_eq!(group_data_to_gui_group_data(gui_group_data_to_group_data(gui_group())), gui_group());
}

#[test]
fn clones_are_equal() {
    assert_eq!(full_photo().clone(), full_photo());
    assert_eq!(full_gui_photo().clone(), full_gui_photo());
    assert_eq!(group().clone(), group());
    assert_eq!(gui_group().clone(), gui_group());
}
