use photag::gui::{
    load_gui_group_data_lst, load_gui_photo_data_lst, make_group_data_lst, record_derivation, make_import_photo_data_lst, make_photo_data_lst, metadata_action,
    save_file, stale_photos, switch_mode, tick, MetadataAction, Mode, SaveDocuments, Schedule,
    TickPlan,
};
use photag::photodata::{
    gui_group_data_to_group_data, gui_photo_data_to_import_photo_data,
    gui_photo_data_to_photo_data, GUIGroupData, GUIPhotoData,
};
use photag::save::{TimeInfo, TimeStamp};

fn s(t: &str) -> String {
    t.to_string()
}

fn at(secs: i64) -> TimeStamp {
    TimeStamp { secs, nanos: 0 }
}

fn gui_photo(id: &str, title: &str) -> GUIPhotoData {
    GUIPhotoData {
        file_name: format!("{}.JPG", id),
        photo_id: s(id),
        photo_src: format!("images/normal/{}.JPG", id),
        photo_lazy_src: format!("images/lazy/{}.JPG", id),
        alt: s("alt"),
        title: s(title),
        year: s(""),
        month: s(""),
        day: s(""),
        hour: s(""),
        minutes: s(""),
        body: s(""),
        lens: s(""),
        time: s(""),
        focal_length: s(""),
        f_value: s(""),
        iso: s(""),
        location: s("place"),
    }
}

fn group(id: &str) -> GUIGroupData {
    GUIGroupData {
        group_id: s(id),
        photo_id_list: vec![s("A")],
        year: s(""),
        month: s(""),
        day: s(""),
        hour: s(""),
        minutes: s(""),
        title: s("Title"),
        description: s("Description"),
        location: s(""),
    }
}

#[test]
fn switching_mode_clears_the_selection() {
    let mut mode = Mode::EditPhotoData;
    let mut now_id = s("p1");
    switch_mode(&mut mode, &mut now_id);
    assert_eq!(mode, Mode::EditGroupData);
    assert_eq!(now_id, "");
    now_id = s("g1");
    switch_mode(&mut mode, &mut now_id);
    assert_eq!(mode, Mode::EditPhotoData);
    assert_eq!(now_id, "");
}

#[test]
fn nothing_is_due_before_an_interval_has_passed() {
    let mut schedule = Schedule { json_save_time: at(1_000), image_save_time: at(1_000) };
    let plan = tick(&mut schedule, at(1_060));
    assert_eq!(plan, TickPlan { refresh_metadata: false, refresh_derivatives: false });
    assert_eq!(schedule, Schedule { json_save_time: at(1_000), image_save_time: at(1_000) });
}

#[test]
fn the_two_refreshes_are_due_independently() {
    let mut schedule = Schedule { json_save_time: at(1_000), image_save_time: at(1_000) };
    let plan = tick(&mut schedule, at(1_061));
    assert_eq!(plan, TickPlan { refresh_metadata: true, refresh_derivatives: false });
    assert_eq!(schedule, Schedule { json_save_time: at(1_061), image_save_time: at(1_000) });
    let plan = tick(&mut schedule, at(1_100));
    assert_eq!(plan, TickPlan { refresh_metadata: false, refresh_derivatives: false });
    let plan = tick(&mut schedule, at(1_421));
    assert_eq!(plan, TickPlan { refresh_metadata: true, refresh_derivatives: true });
    assert_eq!(schedule, Schedule { json_save_time: at(1_421), image_save_time: at(1_421) });
    let mut late = Schedule { json_save_time: at(2_000), image_save_time: at(1_000) };
    let plan = tick(&mut late, at(2_010));
    assert_eq!(plan, TickPlan { refresh_metadata: false, refresh_derivatives: true });
}

#[test]
fn manifest_is_reconciled_when_written_after_the_last_refresh() {
    assert_eq!(metadata_action(None, at(10)), MetadataAction::Persist);
    assert_eq!(metadata_action(Some(at(9)), at(10)), MetadataAction::Persist);
    assert_eq!(metadata_action(Some(at(10)), at(10)), MetadataAction::Persist);
    assert_eq!(metadata_action(Some(at(11)), at(10)), MetadataAction::ReconcileAndPersist);
}

#[test]
fn stale_photos_are_told_one_by_one() {
    let store = vec![
        TimeInfo { id: s("A"), time: at(100) },
        TimeInfo { id: s("B"), time: at(100) },
        TimeInfo { id: s("D"), time: at(100) },
    ];
    let photos = vec![gui_photo("A", ""), gui_photo("B", ""), gui_photo("C", ""), gui_photo("D", "")];
    let times = vec![Some(at(50)), Some(at(150)), Some(at(50))];
    assert_eq!(stale_photos(&store, &photos, &times), vec![false, true, true, true]);
    let all = vec![Some(at(50)), Some(at(100)), Some(at(50)), None];
    assert_eq!(stale_photos(&store, &photos, &all), vec![false, false, true, true]);
}

#[test]
fn documents_follow_the_lists() {
    let photos = vec![gui_photo("A", "a"), gui_photo("B", ""), gui_photo("C", "c")];
    let groups = vec![group("g1"), group("g2")];
    let photo_ids = vec![s("C"), s("A")];
    let group_ids = vec![s("g2")];
    let docs = save_file(&photo_ids, &photos, &group_ids, &groups).unwrap();
    assert_eq!(
        docs,
        SaveDocuments {
            photo_data: vec![
                gui_photo_data_to_photo_data(gui_photo("C", "c")),
                gui_photo_data_to_photo_data(gui_photo("A", "a")),
            ],
            group_data: vec![gui_group_data_to_group_data(group("g2"))],
            import_photo_data: vec![
                gui_photo_data_to_import_photo_data(gui_photo("C", "c")),
                gui_photo_data_to_import_photo_data(gui_photo("A", "a")),
            ],
        }
    );
    assert_eq!(docs.photo_data[0].title, Some(s("c")));
    assert_eq!(docs.import_photo_data[1].id, "A");
    assert_eq!(make_photo_data_lst(&photo_ids, &photos), Some(docs.photo_data));
    assert_eq!(make_import_photo_data_lst(&photo_ids, &photos), Some(docs.import_photo_data));
    assert_eq!(make_group_data_lst(&group_ids, &groups), Some(docs.group_data));
}

#[test]
fn no_document_where_a_listed_record_is_missing() {
    let photos = vec![gui_photo("A", "a")];
    let groups = vec![group("g1")];
    assert_eq!(save_file(&[s("A"), s("Z")], &photos, &[s("g1")], &groups), None);
    assert_eq!(save_file(&[s("A")], &photos, &[s("g1"), s("g9")], &groups), None);
    assert_eq!(make_photo_data_lst(&[s("Z")], &photos), None);
    assert_eq!(make_import_photo_data_lst(&[s("Z")], &photos), None);
    assert_eq!(make_group_data_lst(&[s("g9")], &groups), None);
    assert!(save_file(&[], &photos, &[], &groups).is_some());
}

#[test]
fn session_starts_from_the_stored_records() {
    let stored = vec![
        gui_photo_data_to_photo_data(gui_photo("A", "a")),
        gui_photo_data_to_photo_data(gui_photo("B", "")),
    ];
    assert_eq!(load_gui_photo_data_lst(&stored), vec![gui_photo("A", "a"), gui_photo("B", "")]);
    let groups = vec![
        gui_group_data_to_group_data(group("g2")),
        gui_group_data_to_group_data(group("g1")),
    ];
    assert_eq!(
        load_gui_group_data_lst(&groups),
        (vec![s("g2"), s("g1")], vec![group("g2"), group("g1")])
    );
}

#[test]
fn only_a_derivation_that_succeeded_is_recorded() {
    let mut store = vec![TimeInfo { id: s("A"), time: at(100) }];
    record_derivation(&mut store, "A", false, at(200));
    record_derivation(&mut store, "B", false, at(200));
    assert_eq!(store, vec![TimeInfo { id: s("A"), time: at(100) }]);
    record_derivation(&mut store, "A", true, at(300));
    record_derivation(&mut store, "B", true, at(400));
    assert_eq!(
        store,
        vec![TimeInfo { id: s("A"), time: at(300) }, TimeInfo { id: s("B"), time: at(400) }]
    );
}
