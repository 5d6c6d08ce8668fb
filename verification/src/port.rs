//! The choice of the port on which the backend listens: the first of the
//! preferred ports that can be bound, else one that the system assigns.

use vstd::prelude::*;

verus! {

/// The ports that the backend prefers, in order.
pub open spec fn preferred_ports() -> Seq<u16> {
    seq![7860u16, 7861u16, 7862u16, 7863u16]
}

/// The port used when not even the system can assign one.
pub open spec fn default_port() -> u16 {
    7860
}

fn preferred_port(k: usize) -> (p: u16)
    requires
        k < 4,
    ensures
        p == preferred_ports()[k as int],
{
    if k == 0 {
        7860
    } else if k == 1 {
        7861
    } else if k == 2 {
        7862
    } else {
        7863
    }
}

/// What the search for a port asks for next.
#[derive(PartialEq, Eq, Structural, Clone, Copy, Debug)]
pub enum PortAction {
    /// Try to bind this port on the loopback address and report whether it worked.
    TryPort(u16),
    /// Bind port 0 on the loopback address and report the port that the system
    /// assigned, if any.
    TryAnyPort,
    /// The search is over: use this port.
    Use(u16),
}

/// The action that follows once `k` preferred ports were found taken.
pub open spec fn action_after(k: nat) -> PortAction {
    if k < 4 {
        PortAction::TryPort(preferred_ports()[k as int])
    } else {
        PortAction::TryAnyPort
    }
}

/// The state and action after the answer whether a preferred port could be
/// bound, when `k` preferred ports were found taken before.
pub open spec fn bind_step(k: nat, bound: bool) -> (nat, PortAction) {
    if k >= 4 {
        (k, PortAction::TryAnyPort)
    } else if bound {
        (k, PortAction::Use(preferred_ports()[k as int]))
    } else {
        (k + 1, action_after(k + 1))
    }
}

/// The port used after the system assigned `assigned`.
pub open spec fn any_port_choice(assigned: Option<u16>) -> u16 {
    match assigned {
        Some(p) => p,
        None => default_port(),
    }
}

/// The search for a free port.
pub struct PortSearch {
    refused: usize,
}

impl View for PortSearch {
    type V = nat;

    /// How many preferred ports were found taken so far.
    closed spec fn view(&self) -> nat {
        self.refused as nat
    }
}

impl PortSearch {
    /// A search that has tried nothing yet.
    pub fn new() -> (s: PortSearch)
        ensures
            s@ == 0,
    {
        PortSearch { refused: 0 }
    }

    /// What to try now.
    pub fn next_action(&self) -> (a: PortAction)
        ensures
            a == action_after(self@),
    {
        if self.refused < 4 {
            PortAction::TryPort(preferred_port(self.refused))
        } else {
            PortAction::TryAnyPort
        }
    }

    /// Takes in whether the preferred port just tried could be bound.
    pub fn on_bind(&mut self, bound: bool) -> (a: PortAction)
        ensures
            (final(self)@, a) == bind_step(old(self)@, bound),
    {
        if self.refused >= 4 {
            PortAction::TryAnyPort
        } else if bound {
            PortAction::Use(preferred_port(self.refused))
        } else {
            self.refused = self.refused + 1;
            self.next_action()
        }
    }

    /// Takes in the port that the system assigned, if any, and gives the port to use.
    pub fn on_any_port(&self, assigned: Option<u16>) -> (port: u16)
        ensures
            port == any_port_choice(assigned),
    {
        match assigned {
            Some(p) => p,
            None => 7860,
        }
    }
}

/// The port that the search ends with, driven as the program drives it,
/// from `k` ports found taken, when the preferred ports are free as `free`
/// says and the system assigns `assigned`.
pub open spec fn search_outcome(k: nat, free: Seq<bool>, assigned: Option<u16>) -> u16
    decreases 4 - k,
{
    match action_after(k) {
        PortAction::TryPort(_) => {
            let (k2, a) = bind_step(k, free[k as int]);
            match a {
                PortAction::Use(p) => p,
                PortAction::TryAnyPort => any_port_choice(assigned),
                PortAction::TryPort(_) => if k2 > k {
                    search_outcome(k2, free, assigned)
                } else {
                    default_port()
                },
            }
        },
        PortAction::TryAnyPort => any_port_choice(assigned),
        PortAction::Use(p) => p,
    }
}

proof fn lemma_search_outcome(k: nat, free: Seq<bool>, assigned: Option<u16>)
    requires
        free.len() == 4,
        k <= 4,
        forall|j: int| 0 <= j < k ==> !free[j],
    ensures
        (exists|i: int| 0 <= i < 4 && free[i]) ==> exists|i: int|
            0 <= i < 4 && free[i] && (forall|j: int| 0 <= j < i ==> !free[j]) && search_outcome(
                k,
                free,
                assigned,
            ) == preferred_ports()[i],
        !(exists|i: int| 0 <= i < 4 && free[i]) ==> search_outcome(k, free, assigned) == match assigned {
            Some(p) => p,
            None => default_port(),
        },
    decreases 4 - k,
{
    if k < 4 {
        if free[k as int] {
            assert(forall|j: int| 0 <= j < k ==> !free[j]);
        } else {
            lemma_search_outcome(k + 1, free, assigned);
        }
    }
}

/// The search, answered truthfully, ends with the first preferred port that
/// is free; when none is, with the port that the system assigns; when the
/// system assigns none, with 7860.
pub proof fn port_choice_law(free: Seq<bool>, assigned: Option<u16>)
    requires
        free.len() == 4,
    ensures
        (exists|i: int| 0 <= i < 4 && free[i]) ==> exists|i: int|
            0 <= i < 4 && free[i] && (forall|j: int| 0 <= j < i ==> !free[j]) && search_outcome(
                0,
                free,
                assigned,
            ) == preferred_ports()[i],
        !(exists|i: int| 0 <= i < 4 && free[i]) ==> search_outcome(0, free, assigned) == match assigned {
            Some(p) => p,
            None => default_port(),
        },
{
    lemma_search_outcome(0, free, assigned);
}

} // verus!
