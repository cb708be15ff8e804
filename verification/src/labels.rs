//! Display labels for speakers, keyed by user id.

use vstd::prelude::*;

verus! {

/// One entry of a label table: the label shown for a user.
#[derive(Debug)]
pub struct UserLabel {
    pub user_id: String,
    pub label: String,
}

/// What a label entry holds, as plain text.
pub struct LabelModel {
    pub user_id: Seq<char>,
    pub label: Seq<char>,
}

impl View for UserLabel {
    type V = LabelModel;

    open spec fn view(&self) -> LabelModel {
        LabelModel { user_id: self.user_id@, label: self.label@ }
    }
}

/// The entries of a label table as plain text, in table order.
pub open spec fn labels_view(labels: Seq<UserLabel>) -> Seq<LabelModel> {
    Seq::new(labels.len(), |i: int| labels[i]@)
}

/// Index of the first entry for `user` at or after `from`; the table's
/// length when there is none.
pub open spec fn label_index(labels: Seq<LabelModel>, user: Seq<char>, from: int) -> int
    decreases labels.len() - from,
{
    if from < 0 || from >= labels.len() {
        labels.len() as int
    } else if labels[from].user_id == user {
        from
    } else {
        label_index(labels, user, from + 1)
    }
}

/// The label of `user`: that of the first entry for the user.
pub open spec fn label_of(labels: Seq<LabelModel>, user: Seq<char>) -> Option<Seq<char>> {
    let k = label_index(labels, user, 0);
    if k < labels.len() {
        Some(labels[k].label)
    } else {
        None
    }
}

/// The table after `user` has been given `label`: the user's first entry
/// is rewritten, or a new entry is added at the end.
pub open spec fn with_label(labels: Seq<LabelModel>, user: Seq<char>, label: Seq<char>) -> Seq<
    LabelModel,
> {
    let k = label_index(labels, user, 0);
    if k < labels.len() {
        labels.update(k, LabelModel { user_id: user, label })
    } else {
        labels.push(LabelModel { user_id: user, label })
    }
}

/// The view of an optional string.
pub open spec fn opt_text(o: Option<String>) -> Option<Seq<char>> {
    match o {
        Some(s) => Some(s@),
        None => None,
    }
}

/// A copy of an optional string.
pub fn copy_opt(o: &Option<String>) -> (c: Option<String>)
    ensures
        opt_text(c) == opt_text(*o),
{
    match o {
        Some(s) => Some(s.clone()),
        None => None,
    }
}

/// Position of the first entry for `user_id`, or the table's length.
pub fn find_label(labels: &Vec<UserLabel>, user_id: &String) -> (k: usize)
    ensures
        k == label_index(labels_view(labels@), user_id@, 0),
        k <= labels@.len(),
{
    let mut i: usize = 0;
    while i < labels.len()
        invariant
            i <= labels@.len(),
            label_index(labels_view(labels@), user_id@, 0) == label_index(
                labels_view(labels@),
                user_id@,
                i as int,
            ),
        decreases labels@.len() - i,
    {
        if labels[i].user_id.eq(user_id) {
            return i;
        }
        i = i + 1;
    }
    i
}

/// The label recorded for `user_id`, if any.
pub fn lookup_label(labels: &Vec<UserLabel>, user_id: &String) -> (label: Option<String>)
    ensures
        opt_text(label) == label_of(labels_view(labels@), user_id@),
{
    let k: usize = find_label(labels, user_id);
    if k < labels.len() {
        Some(labels[k].label.clone())
    } else {
        None
    }
}

/// Gives `user_id` the label `label`, replacing an earlier one.
pub fn set_label(labels: &mut Vec<UserLabel>, user_id: String, label: String)
    ensures
        labels_view(final(labels)@) == with_label(labels_view(old(labels)@), user_id@, label@),
{
    let k: usize = find_label(labels, &user_id);
    let ghost before = labels_view(labels@);
    let ghost entry = LabelModel { user_id: user_id@, label: label@ };
    if k < labels.len() {
        labels.set(k, UserLabel { user_id, label });
        proof {
            assert(labels_view(labels@) =~= before.update(k as int, entry));
        }
    } else {
        labels.push(UserLabel { user_id, label });
        proof {
            assert(labels_view(labels@) =~= before.push(entry));
        }
    }
}

/// A copy of a label table.
pub fn copy_labels(labels: &Vec<UserLabel>) -> (out: Vec<UserLabel>)
    ensures
        labels_view(out@) == labels_view(labels@),
{
    let mut out: Vec<UserLabel> = Vec::new();
    let mut i: usize = 0;
    while i < labels.len()
        invariant
            i <= labels@.len(),
            out@.len() == i,
            forall|k: int| 0 <= k < i ==> out@[k]@ == labels@[k]@,
        decreases labels@.len() - i,
    {
        out.push(UserLabel { user_id: labels[i].user_id.clone(), label: labels[i].label.clone() });
        i = i + 1;
    }
    proof {
        assert(labels_view(out@) =~= labels_view(labels@));
    }
    out
}

} // verus!
