use vstd::prelude::*;

use crate::container::{opt_list_view, opt_view, RunContainerInputView};
use crate::resources::str_eq;

verus! {

/// A container as the runtime lists it.
#[derive(Debug, Clone, Default)]
pub struct ContainerSummary {
    pub id: Option<String>,
    /// The container's names, each with a leading `/`.
    pub names: Option<Vec<String>>,
    pub image: Option<String>,
    pub status: Option<String>,
    pub labels: Vec<(String, String)>,
    /// The address the container's network assigned to it.
    pub address: Option<String>,
}

pub struct ContainerView {
    pub id: Option<Seq<char>>,
    pub names: Option<Seq<Seq<char>>>,
    pub image: Option<Seq<char>>,
    pub status: Option<Seq<char>>,
    pub labels: Seq<(Seq<char>, Seq<char>)>,
    pub address: Option<Seq<char>>,
}

impl View for ContainerSummary {
    type V = ContainerView;

    open spec fn view(&self) -> ContainerView {
        ContainerView {
            id: opt_view(self.id),
            names: opt_list_view(self.names),
            image: opt_view(self.image),
            status: opt_view(self.status),
            labels: self.labels.deep_view(),
            address: opt_view(self.address),
        }
    }
}

pub open spec fn summaries_view(v: Seq<ContainerSummary>) -> Seq<ContainerView> {
    v.map_values(|c: ContainerSummary| c@)
}

/// A node container that was found running.
#[derive(Debug, Clone, Default)]
pub struct Node {
    pub name: String,
    pub image: String,
    pub status: Option<String>,
    pub address: Option<String>,
}

pub struct NodeView {
    pub name: Seq<char>,
    pub image: Seq<char>,
    pub status: Option<Seq<char>>,
    pub address: Option<Seq<char>>,
}

impl View for Node {
    type V = NodeView;

    open spec fn view(&self) -> NodeView {
        NodeView {
            name: self.name@,
            image: self.image@,
            status: opt_view(self.status),
            address: opt_view(self.address),
        }
    }
}

/// The container carries `name` (the runtime reports names with a leading `/`).
pub open spec fn has_name(c: ContainerView, name: Seq<char>) -> bool {
    match c.names {
        Some(ns) => exists|j: int| 0 <= j < ns.len() && ns[j] == "/"@ + name,
        None => false,
    }
}

/// The index of the first container, at or after `from`, that carries `name`.
pub open spec fn first_named(listed: Seq<ContainerView>, name: Seq<char>, from: int) -> Option<int>
    decreases listed.len() - from,
{
    if from < 0 || from >= listed.len() {
        None
    } else if has_name(listed[from], name) {
        Some(from)
    } else {
        first_named(listed, name, from + 1)
    }
}

/// What a lookup by name makes of a listing: the first container with that name, provided the
/// runtime reported a name and an image for it.
pub open spec fn observed_node(listed: Seq<ContainerView>, name: Seq<char>) -> Option<NodeView> {
    match first_named(listed, name, 0) {
        None => None,
        Some(i) => {
            let c = listed[i];
            if c.names is Some && c.names->0.len() > 0 && c.image is Some {
                Some(
                    NodeView {
                        name: c.names->0[0],
                        image: c.image->0,
                        status: c.status,
                        address: c.address,
                    },
                )
            } else {
                None
            }
        },
    }
}

/// The id of the container to remove for `name`: that of the first container with the name.
pub open spec fn removal_target(listed: Seq<ContainerView>, name: Seq<char>) -> Option<Seq<char>> {
    match first_named(listed, name, 0) {
        None => None,
        Some(i) => listed[i].id,
    }
}

// ---------------------------------------------------------------------------------------------
// The runtime's own behaviour, as far as the controller relies on it
// ---------------------------------------------------------------------------------------------

/// The container carries every label of `filters`.
pub open spec fn carries_labels(c: ContainerView, filters: Seq<(Seq<char>, Seq<char>)>) -> bool {
    forall|i: int|
        0 <= i < filters.len() ==> exists|j: int|
            0 <= j < c.labels.len() && #[trigger] c.labels[j] == #[trigger] filters[i]
}

/// A listing with label filters returns the containers that carry all of them, in order.
pub open spec fn listing(
    state: Seq<ContainerView>,
    filters: Seq<(Seq<char>, Seq<char>)>,
) -> Seq<ContainerView> {
    state.filter(|c: ContainerView| carries_labels(c, filters))
}

/// `c` is a container that the runtime started for `input`: it bears the requested name and at
/// least the requested labels.
pub open spec fn started_for(c: ContainerView, input: RunContainerInputView) -> bool {
    &&& has_name(c, input.name)
    &&& forall|i: int|
        0 <= i < input.labels.len() ==> exists|j: int|
            0 <= j < c.labels.len() && #[trigger] c.labels[j] == #[trigger] input.labels[i]
}

// ---------------------------------------------------------------------------------------------
// Executable lookups
// ---------------------------------------------------------------------------------------------

fn carries_name(c: &ContainerSummary, name: &str) -> (r: bool)
    ensures
        r == has_name(c@, name@),
{
    proof {
        reveal_strlit("/");
    }
    match &c.names {
        None => false,
        Some(ns) => {
            let mut want = String::from_str("/");
            want.append(name);
            let mut j: usize = 0;
            while j < ns.len()
                invariant
                    j <= ns@.len(),
                    c.names == Some(*ns),
                    want@ == "/"@ + name@,
                    forall|k: int| 0 <= k < j ==> ns.deep_view()[k] != "/"@ + name@,
                decreases ns@.len() - j,
            {
                if str_eq(ns[j].as_str(), want.as_str()) {
                    assert(ns.deep_view()[j as int] == "/"@ + name@);
                    assert(c@.names == Some(ns.deep_view()));
                    let ghost nv = ns.deep_view();
                    assert(nv.len() == ns@.len());
                    assert(0 <= j < nv.len() && nv[j as int] == "/"@ + name@);
                    assert(c@.names->0[j as int] == "/"@ + name@);
                    return true;
                }
                j = j + 1;
            }
            false
        },
    }
}

/// The index of the first listed container that carries `name`.
pub fn find_named(listed: &Vec<ContainerSummary>, name: &str) -> (r: Option<usize>)
    ensures
        match r {
            None => first_named(summaries_view(listed@), name@, 0) is None,
            Some(i) => first_named(summaries_view(listed@), name@, 0) == Some(i as int) && i
                < listed@.len(),
        },
{
    let ghost lv = summaries_view(listed@);
    let mut i: usize = 0;
    while i < listed.len()
        invariant
            i <= listed@.len(),
            lv == summaries_view(listed@),
            first_named(lv, name@, 0) == first_named(lv, name@, i as int),
        decreases listed@.len() - i,
    {
        assert(lv[i as int] == listed@[i as int]@);
        if carries_name(&listed[i], name) {
            return Some(i);
        }
        i = i + 1;
    }
    None
}

} // verus!
