//! The configuration of the tool: the service token, where the videos are stored, and
//! the libraries that videos can be linked into.

use vstd::prelude::*;

verus! {

/// A library that videos can be linked into, under a label.
#[derive(Debug)]
pub struct Target {
    pub label: String,
    pub path: String,
}

#[derive(Debug)]
pub struct Config {
    pub tvdb_auth_token: String,
    pub storage_path: String,
    pub targets: Vec<Target>,
}

pub struct TargetView {
    pub label: Seq<char>,
    pub path: Seq<char>,
}

pub struct ConfigView {
    pub tvdb_auth_token: Seq<char>,
    pub storage_path: Seq<char>,
    pub targets: Seq<TargetView>,
}

impl View for Target {
    type V = TargetView;

    open spec fn view(&self) -> TargetView {
        TargetView { label: self.label@, path: self.path@ }
    }
}

impl DeepView for Target {
    type V = TargetView;

    open spec fn deep_view(&self) -> TargetView {
        self@
    }
}

impl View for Config {
    type V = ConfigView;

    open spec fn view(&self) -> ConfigView {
        ConfigView {
            tvdb_auth_token: self.tvdb_auth_token@,
            storage_path: self.storage_path@,
            targets: self.targets.deep_view(),
        }
    }
}

/// `i` is the first position of a target labelled `label`.
pub open spec fn is_first_labelled(targets: Seq<TargetView>, label: Seq<char>, i: int) -> bool {
    &&& 0 <= i < targets.len()
    &&& targets[i].label == label
    &&& forall|j: int| 0 <= j < i ==> targets[j].label != label
}

pub open spec fn first_labelled(targets: Seq<TargetView>, label: Seq<char>) -> Option<int> {
    if exists|i: int| is_first_labelled(targets, label, i) {
        Some(choose|i: int| is_first_labelled(targets, label, i))
    } else {
        None
    }
}

pub proof fn lemma_first_labelled_is(targets: Seq<TargetView>, label: Seq<char>, i: int)
    requires
        is_first_labelled(targets, label, i),
    ensures
        first_labelled(targets, label) == Some(i),
{
    let k = choose|k: int| is_first_labelled(targets, label, k);
    assert(is_first_labelled(targets, label, k));
    if k < i {
        assert(targets[k].label != label);
    } else if i < k {
        assert(targets[i].label != label);
    }
}

/// Whether some target has this label.
pub open spec fn has_label(targets: Seq<TargetView>, label: Seq<char>) -> bool {
    exists|i: int| 0 <= i < targets.len() && targets[i].label == label
}

pub proof fn lemma_has_label_first(targets: Seq<TargetView>, label: Seq<char>)
    requires
        has_label(targets, label),
    ensures
        first_labelled(targets, label) is Some,
        first_labelled(targets, label) matches Some(i) && is_first_labelled(targets, label, i),
    decreases targets.len(),
{
    if targets[0].label == label {
        lemma_first_labelled_is(targets, label, 0);
    } else {
        let rest = targets.drop_first();
        let w = choose|i: int| 0 <= i < targets.len() && targets[i].label == label;
        assert(rest[w - 1].label == label);
        lemma_has_label_first(rest, label);
        let k = choose|k: int| is_first_labelled(rest, label, k);
        assert(is_first_labelled(rest, label, k));
        assert forall|j: int| 0 <= j < k + 1 implies targets[j].label != label by {
            if j > 0 {
                assert(targets[j] == rest[j - 1]);
            }
        }
        assert(is_first_labelled(targets, label, k + 1));
        lemma_first_labelled_is(targets, label, k + 1);
    }
}

/// Position of the first target labelled `label`.
pub fn find_target(targets: &Vec<Target>, label: &String) -> (r: Option<usize>)
    ensures
        match r {
            Some(i) => first_labelled(targets.deep_view(), label@) == Some(i as int),
            None => first_labelled(targets.deep_view(), label@) is None,
        },
{
    let mut i: usize = 0;
    while i < targets.len()
        invariant
            i <= targets.len(),
            forall|j: int| 0 <= j < i ==> targets.deep_view()[j].label != label@,
        decreases targets.len() - i,
    {
        if targets[i].label == *label {
            proof {
                lemma_first_labelled_is(targets.deep_view(), label@, i as int);
            }
            return Some(i);
        }
        i = i + 1;
    }
    None
}

} // verus!
