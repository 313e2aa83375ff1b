//! Editing the groups of photos: which groups a photo is in, putting a
//! photo into groups and taking it out, creating and deleting a group.
//!
//! The groups are held in a table that is searched by identifier, and the
//! order in which they are shown is a list of identifiers beside it. The
//! members of a group are in the order in which they were added; a group
//! that gains a member moves to the front of the list.

use vstd::prelude::*;
use vstd::string::*;
use crate::lookup::{distinct, last_index_of, lemma_last_index_of};
use crate::photodata::{make_dummy_gui_group_data, GUIGroupData, GUIGroupDataView};
use crate::reconcile::gui_group_views;
use crate::text::{clone_strings, contains_text, texts, without, without_text};

verus! {

/// The identifiers of the groups of a table, in order.
pub open spec fn group_ids(gs: Seq<GUIGroupDataView>) -> Seq<Seq<char>> {
    gs.map_values(|g: GUIGroupDataView| g.group_id)
}

/// The group that a table holds for `id`.
pub open spec fn find_group(gs: Seq<GUIGroupDataView>, id: Seq<char>) -> Option<GUIGroupDataView> {
    match last_index_of(group_ids(gs), id) {
        Some(i) => Some(gs[i]),
        None => None,
    }
}

/// The place of the group `id` in a table.
pub fn group_index(table: &Vec<GUIGroupData>, id: &String) -> (r: Option<usize>)
    ensures
        match r {
            Some(i) => i < table.len() && last_index_of(
                group_ids(gui_group_views(table@)),
                id@,
            ) == Some(i as int),
            None => last_index_of(group_ids(gui_group_views(table@)), id@) is None,
        },
{
    let ghost keys = group_ids(gui_group_views(table@));
    let mut i: usize = table.len();
    while i > 0
        invariant
            i <= table.len(),
            keys == group_ids(gui_group_views(table@)),
            forall|j: int| i <= j < table.len() ==> keys[j] != id@,
        decreases i,
    {
        i -= 1;
        assert(keys[i as int] == table[i as int]@.group_id);
        if table[i].group_id == *id {
            proof {
                lemma_last_index_of(keys, id@);
            }
            return Some(i);
        }
    }
    proof {
        lemma_last_index_of(keys, id@);
    }
    None
}

/// Whether the photo is a member of the group; it is a member of no group
/// that the table does not hold.
pub open spec fn is_member(gs: Seq<GUIGroupDataView>, group_id: Seq<char>, photo_id: Seq<char>) -> bool {
    match find_group(gs, group_id) {
        Some(g) => g.photo_id_list.contains(photo_id),
        None => false,
    }
}

/// The models of a list of check marks: a group's identifier and whether
/// the box beside it is ticked.
pub open spec fn check_views(c: Seq<(String, bool)>) -> Seq<(Seq<char>, bool)> {
    c.map_values(|c: (String, bool)| (c.0@, c.1))
}

/// The check marks to show for a photo: for each group of the list, in
/// order, whether the photo is a member of it.
pub fn make_group_check_lst(
    now_id: &str,
    group_id_lst: &[String],
    gui_group_data_lst: &Vec<GUIGroupData>,
) -> (r: Vec<(String, bool)>)
    ensures
        check_views(r@) == Seq::new(
            group_id_lst@.len(),
            |i: int|
                (
                    group_id_lst@[i]@,
                    is_member(gui_group_views(gui_group_data_lst@), group_id_lst@[i]@, now_id@),
                ),
        ),
{
    let photo_id = now_id.to_owned();
    let mut v: Vec<(String, bool)> = Vec::new();
    let mut i: usize = 0;
    while i < group_id_lst.len()
        invariant
            i <= group_id_lst.len(),
            photo_id@ == now_id@,
            v.len() == i,
            forall|j: int|
                0 <= j < i ==> v[j].0@ == group_id_lst@[j]@ && v[j].1 == is_member(
                    gui_group_views(gui_group_data_lst@),
                    group_id_lst@[j]@,
                    now_id@,
                ),
        decreases group_id_lst.len() - i,
    {
        let group_id = &group_id_lst[i];
        let member = match group_index(gui_group_data_lst, group_id) {
            Some(k) => contains_text(&gui_group_data_lst[k].photo_id_list, &photo_id),
            None => false,
        };
        v.push((group_id.clone(), member));
        i += 1;
    }
    assert(check_views(v@) =~= Seq::new(
        group_id_lst@.len(),
        |i: int|
            (
                group_id_lst@[i]@,
                is_member(gui_group_views(gui_group_data_lst@), group_id_lst@[i]@, now_id@),
            ),
    ));
    v
}

/// The members of a group after its box was read for the photo: a ticked
/// box adds the photo at the end unless it is a member already, an empty
/// box takes it out wherever it occurs.
pub open spec fn toggled_members(members: Seq<Seq<char>>, photo_id: Seq<char>, checked: bool) -> Seq<
    Seq<char>,
> {
    if members.contains(photo_id) {
        if checked {
            members
        } else {
            without(members, photo_id)
        }
    } else {
        if checked {
            members.push(photo_id)
        } else {
            members
        }
    }
}

/// The groups while the check marks are applied, and the groups that have
/// gained the photo so far, in the order in which they gained it.
pub struct GroupState {
    pub groups: Seq<GUIGroupDataView>,
    pub promoted: Seq<Seq<char>>,
}

/// Applies one check mark. A mark for a group that the table does not hold
/// changes nothing.
pub open spec fn apply_check(st: GroupState, photo_id: Seq<char>, check: (Seq<char>, bool)) -> GroupState {
    match last_index_of(group_ids(st.groups), check.0) {
        Some(i) => {
            let members = st.groups[i].photo_id_list;
            GroupState {
                groups: st.groups.update(
                    i,
                    GUIGroupDataView {
                        photo_id_list: toggled_members(members, photo_id, check.1),
                        ..st.groups[i]
                    },
                ),
                promoted: if check.1 && !members.contains(photo_id) {
                    st.promoted.push(check.0)
                } else {
                    st.promoted
                },
            }
        },
        None => st,
    }
}

/// Applies the check marks in order.
pub open spec fn apply_checks(st: GroupState, photo_id: Seq<char>, checks: Seq<(Seq<char>, bool)>) -> GroupState
    decreases checks.len(),
{
    if checks.len() == 0 {
        st
    } else {
        apply_check(apply_checks(st, photo_id, checks.drop_last()), photo_id, checks.last())
    }
}

/// `acc` followed by the identifiers of `ids` that it does not hold yet,
/// each once, in their order.
pub open spec fn append_missing(acc: Seq<Seq<char>>, ids: Seq<Seq<char>>) -> Seq<Seq<char>>
    decreases ids.len(),
{
    if ids.len() == 0 {
        acc
    } else {
        let earlier = append_missing(acc, ids.drop_last());
        if earlier.contains(ids.last()) {
            earlier
        } else {
            earlier.push(ids.last())
        }
    }
}

/// Updates the groups from the check marks entered for a photo.
///
/// Each mark is applied in order: see [`toggled_members`]. The groups that
/// gained the photo then come first in the list of groups, in the order of
/// their marks, and the other groups follow in the order that they had.
pub fn update_group_data(
    photo_id: &str,
    check_lst: &[(String, bool)],
    group_id_lst: &mut Vec<String>,
    gui_group_data_lst: &mut Vec<GUIGroupData>,
)
    ensures
        ({
            let st = apply_checks(
                GroupState {
                    groups: gui_group_views(old(gui_group_data_lst)@),
                    promoted: Seq::empty(),
                },
                photo_id@,
                check_views(check_lst@),
            );
            &&& gui_group_views(final(gui_group_data_lst)@) == st.groups
            &&& texts(final(group_id_lst)@) == append_missing(
                st.promoted,
                texts(old(group_id_lst)@),
            )
        }),
{
    let photo = photo_id.to_owned();
    let ghost start = GroupState {
        groups: gui_group_views(gui_group_data_lst@),
        promoted: Seq::empty(),
    };
    let ghost checks = check_views(check_lst@);
    let mut promoted: Vec<String> = Vec::new();
    let mut i: usize = 0;
    proof {
        assert(checks.take(0) =~= Seq::<(Seq<char>, bool)>::empty());
        assert(texts(promoted@) =~= Seq::<Seq<char>>::empty());
    }
    while i < check_lst.len()
        invariant
            i <= check_lst.len(),
            photo@ == photo_id@,
            checks == check_views(check_lst@),
            gui_group_views(gui_group_data_lst@) == apply_checks(
                start,
                photo_id@,
                checks.take(i as int),
            ).groups,
            texts(promoted@) == apply_checks(start, photo_id@, checks.take(i as int)).promoted,
        decreases check_lst.len() - i,
    {
        let group_id = &check_lst[i].0;
        let checked = check_lst[i].1;
        let ghost before = gui_group_views(gui_group_data_lst@);
        proof {
            assert(checks.take(i + 1).drop_last() =~= checks.take(i as int));
            assert(checks.take(i + 1).last() == (group_id@, checked));
        }
        match group_index(gui_group_data_lst, group_id) {
            Some(k) => {
                let group = &gui_group_data_lst[k];
                let member = contains_text(&group.photo_id_list, &photo);
                let mut members = if member && !checked {
                    without_text(&group.photo_id_list, &photo)
                } else {
                    clone_strings(&group.photo_id_list)
                };
                if !member && checked {
                    let ghost kept = members@;
                    members.push(photo.clone());
                    assert(texts(members@) =~= texts(kept).push(photo@));
                    let ghost listed = promoted@;
                    promoted.push(group_id.clone());
                    assert(texts(promoted@) =~= texts(listed).push(group_id@));
                }
                let updated = GUIGroupData {
                    group_id: group.group_id.clone(),
                    photo_id_list: members,
                    year: group.year.clone(),
                    month: group.month.clone(),
                    day: group.day.clone(),
                    hour: group.hour.clone(),
                    minutes: group.minutes.clone(),
                    title: group.title.clone(),
                    description: group.description.clone(),
                    location: group.location.clone(),
                };
                gui_group_data_lst.set(k, updated);
                assert(gui_group_views(gui_group_data_lst@) =~= before.update(k as int, updated@));
            },
            None => {},
        }
        i += 1;
    }
    assert(checks.take(check_lst.len() as int) =~= checks);
    let ghost first = texts(promoted@);
    let ghost listed = texts(group_id_lst@);
    let mut j: usize = 0;
    proof {
        assert(listed.take(0) =~= Seq::<Seq<char>>::empty());
    }
    while j < group_id_lst.len()
        invariant
            j <= group_id_lst.len(),
            listed == texts(group_id_lst@),
            texts(promoted@) == append_missing(first, listed.take(j as int)),
        decreases group_id_lst.len() - j,
    {
        proof {
            assert(listed.take(j + 1).drop_last() =~= listed.take(j as int));
            assert(listed.take(j + 1).last() == group_id_lst[j as int]@);
        }
        if !contains_text(&promoted, &group_id_lst[j]) {
            let ghost so_far = promoted@;
            promoted.push(group_id_lst[j].clone());
            assert(texts(promoted@) =~= texts(so_far).push(group_id_lst[j as int]@));
        }
        j += 1;
    }
    assert(listed.take(group_id_lst.len() as int) =~= listed);
    *group_id_lst = promoted;
}

/// Why a new group is refused.
#[derive(Debug, PartialEq, Eq, Clone, Copy)]
pub enum ValidationError {
    /// The group has no identifier.
    EmptyGroupId,
    /// The group has no title.
    EmptyTitle,
    /// The group has no description.
    EmptyDescription,
}

/// The first of the required values of a group that is empty, in the order
/// identifier, title, description.
pub open spec fn first_missing(g: GUIGroupDataView) -> Option<ValidationError> {
    if g.group_id.len() == 0 {
        Some(ValidationError::EmptyGroupId)
    } else if g.title.len() == 0 {
        Some(ValidationError::EmptyTitle)
    } else if g.description.len() == 0 {
        Some(ValidationError::EmptyDescription)
    } else {
        None
    }
}

/// A table with the group `g` put in: in the place of the group that has
/// its identifier, or at the end where there is none.
pub open spec fn put_group(gs: Seq<GUIGroupDataView>, g: GUIGroupDataView) -> Seq<GUIGroupDataView> {
    match last_index_of(group_ids(gs), g.group_id) {
        Some(i) => gs.update(i, g),
        None => gs.push(g),
    }
}

/// Checks the required values of a group that is about to be created.
pub fn validate_group(group: &GUIGroupData) -> (r: Result<(), ValidationError>)
    ensures
        match r {
            Ok(_) => first_missing(group@) is None,
            Err(e) => first_missing(group@) == Some(e),
        },
{
    if group.group_id.as_str().is_empty() {
        Err(ValidationError::EmptyGroupId)
    } else if group.title.as_str().is_empty() {
        Err(ValidationError::EmptyTitle)
    } else if group.description.as_str().is_empty() {
        Err(ValidationError::EmptyDescription)
    } else {
        Ok(())
    }
}

/// Creates the group that was entered in the form `dummy_group_data`.
///
/// A group without identifier, title or description is refused, and then
/// nothing changes. Otherwise the group is put into the table under its
/// identifier, its identifier is added at the end of the list of groups
/// unless the list holds it already, and the form is blank again.
pub fn create_group(
    dummy_group_data: &mut GUIGroupData,
    group_id_lst: &mut Vec<String>,
    gui_group_data_lst: &mut Vec<GUIGroupData>,
) -> (r: Result<(), ValidationError>)
    ensures
        match r {
            Err(e) => {
                &&& first_missing(old(dummy_group_data)@) == Some(e)
                &&& *final(dummy_group_data) == *old(dummy_group_data)
                &&& *final(group_id_lst) == *old(group_id_lst)
                &&& *final(gui_group_data_lst) == *old(gui_group_data_lst)
            },
            Ok(_) => {
                &&& first_missing(old(dummy_group_data)@) is None
                &&& final(dummy_group_data)@ == GUIGroupDataView::blank()
                &&& gui_group_views(final(gui_group_data_lst)@) == put_group(
                    gui_group_views(old(gui_group_data_lst)@),
                    old(dummy_group_data)@,
                )
                &&& texts(final(group_id_lst)@) == if texts(old(group_id_lst)@).contains(
                    old(dummy_group_data)@.group_id,
                ) {
                    texts(old(group_id_lst)@)
                } else {
                    texts(old(group_id_lst)@).push(old(dummy_group_data)@.group_id)
                }
            },
        },
{
    match validate_group(dummy_group_data) {
        Err(e) => Err(e),
        Ok(_) => {
            let group = dummy_group_data.clone();
            let ghost before = gui_group_views(gui_group_data_lst@);
            let ghost listed = group_id_lst@;
            if !contains_text(group_id_lst, &group.group_id) {
                group_id_lst.push(group.group_id.clone());
                assert(texts(group_id_lst@) =~= texts(listed).push(group@.group_id));
            }
            match group_index(gui_group_data_lst, &group.group_id) {
                Some(k) => {
                    let ghost g = group@;
                    gui_group_data_lst.set(k, group);
                    assert(gui_group_views(gui_group_data_lst@) =~= before.update(k as int, g));
                },
                None => {
                    let ghost g = group@;
                    gui_group_data_lst.push(group);
                    assert(gui_group_views(gui_group_data_lst@) =~= before.push(g));
                },
            }
            *dummy_group_data = make_dummy_gui_group_data();
            Ok(())
        },
    }
}

/// Takes a group off the list of groups. Its record stays in the table, and
/// is no longer shown or saved.
pub fn delete_group(group_id_lst: &mut Vec<String>, group_id: &str)
    ensures
        texts(final(group_id_lst)@) == without(texts(old(group_id_lst)@), group_id@),
{
    let id = group_id.to_owned();
    let kept = without_text(group_id_lst, &id);
    *group_id_lst = kept;
}

/// After a check mark for a group of the table was applied, the photo is a
/// member of that group exactly when the box is ticked; the group keeps
/// its place and every value but its members.
pub proof fn lemma_membership_follows_check(
    st: GroupState,
    photo_id: Seq<char>,
    check: (Seq<char>, bool),
)
    requires
        find_group(st.groups, check.0) is Some,
    ensures
        is_member(apply_check(st, photo_id, check).groups, check.0, photo_id) == check.1,
        group_ids(apply_check(st, photo_id, check).groups) == group_ids(st.groups),
{
    let ids = group_ids(st.groups);
    let after = apply_check(st, photo_id, check).groups;
    lemma_last_index_of(ids, check.0);
    let i = last_index_of(ids, check.0)->0;
    assert(group_ids(after) =~= ids);
    let members = st.groups[i].photo_id_list;
    assert(after[i].photo_id_list == toggled_members(members, photo_id, check.1));
    if members.contains(photo_id) && !check.1 {
        let keep = |t: Seq<char>| t != photo_id;
        assert forall|k: int| 0 <= k < members.filter(keep).len() implies members.filter(keep)[k]
            != photo_id by {
            members.lemma_filter_pred(keep, k);
        }
    }
    if !members.contains(photo_id) && check.1 {
        assert(members.push(photo_id)[members.len() as int] == photo_id);
    }
}

/// A table that holds one group for each identifier still does after a
/// group was put in, and the group is then found under its identifier.
pub proof fn lemma_put_group(gs: Seq<GUIGroupDataView>, g: GUIGroupDataView)
    requires
        distinct(group_ids(gs)),
    ensures
        distinct(group_ids(put_group(gs, g))),
        find_group(put_group(gs, g), g.group_id) == Some(g),
{
    let ids = group_ids(gs);
    let after = put_group(gs, g);
    let ids_after = group_ids(after);
    lemma_last_index_of(ids, g.group_id);
    lemma_last_index_of(ids_after, g.group_id);
    match last_index_of(ids, g.group_id) {
        Some(i) => {
            assert(ids_after =~= ids);
            assert(after[i] == g);
        },
        None => {
            assert(ids_after =~= ids.push(g.group_id));
            assert(ids_after[gs.len() as int] == g.group_id);
            assert(after[gs.len() as int] == g);
        },
    }
}

} // verus!
