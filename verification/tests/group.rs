use photag::group::{
    create_group, delete_group, group_index, make_group_check_lst, update_group_data,
    validate_group, ValidationError,
};
use photag::photodata::{make_dummy_gui_group_data, GUIGroupData};

fn s(t: &str) -> String {
    t.to_string()
}

fn strings(v: &[&str]) -> Vec<String> {
    v.iter().map(|t| t.to_string()).collect()
}

fn group(id: &str, members: &[&str]) -> GUIGroupData {
    GUIGroupData {
        group_id: s(id),
        photo_id_list: strings(members),
        year: s("2020"),
        month: s(""),
        day: s(""),
        hour: s(""),
        minutes: s(""),
        title: s("Title"),
        description: s("Description"),
        location: s("Somewhere"),
    }
}

#[test]
fn check_list_tells_membership() {
    let groups = vec![group("g1", &["A", "B"]), group("g2", &["C"]), group("g3", &[])];
    let order = strings(&["g2", "g1", "missing", "g3"]);
    assert_eq!(
        make_group_check_lst("A", &order, &groups),
        vec![(s("g2"), false), (s("g1"), true), (s("missing"), false), (s("g3"), false)]
    );
    assert_eq!(make_group_check_lst("A", &[], &groups), vec![]);
}

#[test]
fn ticking_adds_the_photo_last_and_promotes_the_group() {
    let mut groups = vec![group("g1", &["A"]), group("g2", &["C"]), group("g3", &[])];
    let mut order = strings(&["g1", "g2", "g3"]);
    let checks = vec![(s("g1"), true), (s("g2"), false), (s("g3"), true)];
    update_group_data("B", &checks, &mut order, &mut groups);
    assert_eq!(order, strings(&["g1", "g3", "g2"]));
    assert_eq!(groups, vec![group("g1", &["A", "B"]), group("g2", &["C"]), group("g3", &["B"])]);
    let checks = vec![(s("g1"), true), (s("g2"), true), (s("g3"), true)];
    update_group_data("B", &checks, &mut order, &mut groups);
    assert_eq!(order, strings(&["g2", "g1", "g3"]));
    assert_eq!(
        groups,
        vec![group("g1", &["A", "B"]), group("g2", &["C", "B"]), group("g3", &["B"])]
    );
}

#[test]
fn clearing_the_box_takes_the_photo_out() {
    let mut groups = vec![group("g1", &["A", "B", "A"]), group("g2", &["A"])];
    let mut order = strings(&["g1", "g2"]);
    let checks = vec![(s("g1"), false), (s("g2"), true)];
    update_group_data("A", &checks, &mut order, &mut groups);
    assert_eq!(groups, vec![group("g1", &["B"]), group("g2", &["A"])]);
    assert_eq!(order, strings(&["g1", "g2"]));
}

#[test]
fn a_mark_for_an_unknown_group_changes_nothing() {
    let mut groups = vec![group("g1", &["A"])];
    let mut order = strings(&["g1", "g1", "gone"]);
    update_group_data("B", &[(s("nowhere"), true)], &mut order, &mut groups);
    assert_eq!(groups, vec![group("g1", &["A"])]);
    assert_eq!(order, strings(&["g1", "gone"]));
}

#[test]
fn validation_names_the_first_missing_value() {
    let mut g = make_dummy_gui_group_data();
    assert_eq!(validate_group(&g), Err(ValidationError::EmptyGroupId));
    g.group_id = s("g");
    assert_eq!(validate_group(&g), Err(ValidationError::EmptyTitle));
    g.title = s("t");
    assert_eq!(validate_group(&g), Err(ValidationError::EmptyDescription));
    g.description = s("d");
    assert_eq!(validate_group(&g), Ok(()));
}

#[test]
fn refused_group_leaves_everything_as_it_was() {
    let mut form = group("", &[]);
    let mut order = strings(&["g1"]);
    let mut groups = vec![group("g1", &["A"])];
    assert_eq!(create_group(&mut form, &mut order, &mut groups), Err(ValidationError::EmptyGroupId));
    assert_eq!(form, group("", &[]));
    assert_eq!(order, strings(&["g1"]));
    assert_eq!(groups, vec![group("g1", &["A"])]);
    let mut untitled = group("g2", &[]);
    untitled.title = s("");
    assert_eq!(
        create_group(&mut untitled, &mut order, &mut groups),
        Err(ValidationError::EmptyTitle)
    );
    let mut undescribed = group("g2", &[]);
    undescribed.description = s("");
    assert_eq!(
        create_group(&mut undescribed, &mut order, &mut groups),
        Err(ValidationError::EmptyDescription)
    );
    assert_eq!(groups.len(), 1);
}

#[test]
fn created_group_is_listed_last_and_the_form_is_blank() {
    let mut form = group("g2", &[]);
    let mut order = strings(&["g1"]);
    let mut groups = vec![group("g1", &["A"])];
    assert_eq!(create_group(&mut form, &mut order, &mut groups), Ok(()));
    assert_eq!(form, make_dummy_gui_group_data());
    assert_eq!(order, strings(&["g1", "g2"]));
    assert_eq!(groups, vec![group("g1", &["A"]), group("g2", &[])]);
}

#[test]
fn creating_a_group_again_replaces_it() {
    let mut form = group("g1", &[]);
    form.title = s("Other");
    let mut order = strings(&["g1"]);
    let mut groups = vec![group("g1", &["A"])];
    assert_eq!(create_group(&mut form, &mut order, &mut groups), Ok(()));
    assert_eq!(order, strings(&["g1"]));
    assert_eq!(groups.len(), 1);
    assert_eq!(groups[0].title, "Other");
    assert_eq!(groups[0].photo_id_list, strings(&[]));
}

#[test]
fn deleted_group_leaves_the_list() {
    let mut order = strings(&["g1", "g2", "g1", "g3"]);
    delete_group(&mut order, "g1");
    assert_eq!(order, strings(&["g2", "g3"]));
    delete_group(&mut order, "unknown");
    assert_eq!(order, strings(&["g2", "g3"]));
}

#[test]
fn group_lookup_takes_the_last() {
    let groups = vec![group("g1", &["A"]), group("g1", &["B"])];
    assert_eq!(group_index(&groups, &s("g1")), Some(1));
    assert_eq!(group_index(&groups, &s("g2")), None);
}
