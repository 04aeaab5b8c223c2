//! The fleet descriptor: which node processes make up the network, and the
//! static checks on it.

use crate::error::{outcome_view, Error, ErrorView};
use crate::task::{Output, OutputView, Task, TaskView};
use vstd::prelude::*;

verus! {

/// What a declared port is used for.
#[derive(Debug, Clone, Copy, PartialEq, Eq, Structural)]
pub enum PortPurpose {
    P2p,
    Rpc,
    Ws,
}

/// A network port that a node claims.
#[derive(Debug, Clone, Copy, PartialEq, Eq, Structural)]
pub struct Port {
    pub purpose: PortPurpose,
    pub number: u16,
}

/// One member of the fleet: the program to run and the ports it claims.
#[derive(Debug, PartialEq, Eq)]
pub struct NodeSpec {
    pub name: String,
    pub bin: String,
    pub args: Vec<String>,
    pub cwd: Option<String>,
    pub ports: Vec<Port>,
}

/// A [`NodeSpec`] as a mathematical value.
pub ghost struct NodeSpecView {
    pub name: Seq<char>,
    pub bin: Seq<char>,
    pub args: Seq<Seq<char>>,
    pub cwd: Option<Seq<char>>,
    pub ports: Seq<Port>,
}

impl View for NodeSpec {
    type V = NodeSpecView;

    open spec fn view(&self) -> NodeSpecView {
        NodeSpecView {
            name: self.name@,
            bin: self.bin@,
            args: self.args.deep_view(),
            cwd: self.cwd.deep_view(),
            ports: self.ports@,
        }
    }
}

/// The fleet as configured. The order of `members` is the order in which
/// their processes are started.
#[derive(Debug, PartialEq, Eq)]
pub struct Config {
    pub members: Vec<NodeSpec>,
}

impl View for Config {
    type V = Seq<NodeSpecView>;

    open spec fn view(&self) -> Seq<NodeSpecView> {
        Seq::new(self.members@.len(), |i: int| self.members@[i]@)
    }
}

/// A place in a fleet where a port is declared: a member and an index into
/// its ports.
pub ghost struct Slot {
    pub member: int,
    pub port: int,
}

impl Slot {
    /// The slot exists in `fleet`.
    pub open spec fn within(self, fleet: Seq<NodeSpecView>) -> bool {
        0 <= self.member < fleet.len() && 0 <= self.port < fleet[self.member].ports.len()
    }

    /// The port number declared at this slot.
    pub open spec fn number(self, fleet: Seq<NodeSpecView>) -> u16 {
        fleet[self.member].ports[self.port].number
    }

    /// This slot comes before `other` when the fleet's ports are read member
    /// by member.
    pub open spec fn before(self, other: Slot) -> bool {
        self.member < other.member || (self.member == other.member && self.port < other.port)
    }
}

/// Two different slots of `fleet`, `first` before `second`, declare the same
/// port number.
pub open spec fn collide(fleet: Seq<NodeSpecView>, first: Slot, second: Slot) -> bool {
    &&& first.within(fleet)
    &&& second.within(fleet)
    &&& first.before(second)
    &&& first.number(fleet) == second.number(fleet)
}

/// No port number is declared twice anywhere in `fleet`.
pub open spec fn ports_unique(fleet: Seq<NodeSpecView>) -> bool {
    forall|first: Slot, second: Slot| !#[trigger] collide(fleet, first, second)
}

/// `first` and `second` are the collision that a reader of the fleet meets
/// first: no collision ends at a slot before `second`.
pub open spec fn earliest_collision(fleet: Seq<NodeSpecView>, first: Slot, second: Slot) -> bool {
    &&& collide(fleet, first, second)
    &&& forall|a: Slot, b: Slot| #[trigger] collide(fleet, a, b) ==> !b.before(second)
}

/// The outcome of the port check: success where the ports are unique, and
/// otherwise the earliest collision, with the names of its two members.
pub open spec fn port_check(fleet: Seq<NodeSpecView>) -> Result<(), ErrorView> {
    if ports_unique(fleet) {
        Ok(())
    } else {
        let (first, second) = choose|pair: (Slot, Slot)|
            earliest_collision(fleet, pair.0, pair.1);
        Err(
            ErrorView::DuplicatePort {
                first: fleet[first.member].name,
                second: fleet[second.member].name,
                port: second.number(fleet),
            },
        )
    }
}

/// Member `i` has a binary that was found usable: `usable` holds one answer
/// per member, and a member without an answer counts as unusable.
pub open spec fn binary_usable(usable: Seq<bool>, i: int) -> bool {
    0 <= i < usable.len() && usable[i]
}

/// Every member of `fleet` has a usable binary.
pub open spec fn binaries_usable(fleet: Seq<NodeSpecView>, usable: Seq<bool>) -> bool {
    forall|i: int| 0 <= i < fleet.len() ==> #[trigger] binary_usable(usable, i)
}

/// Member `i` is the first of `fleet` without a usable binary.
pub open spec fn first_unusable(fleet: Seq<NodeSpecView>, usable: Seq<bool>, i: int) -> bool {
    &&& 0 <= i < fleet.len()
    &&& !binary_usable(usable, i)
    &&& forall|k: int| 0 <= k < i ==> #[trigger] binary_usable(usable, k)
}

/// The outcome of the binary check: success where every binary is usable,
/// and otherwise the name of the first member whose binary is not.
pub open spec fn binary_check(fleet: Seq<NodeSpecView>, usable: Seq<bool>) -> Result<
    (),
    ErrorView,
> {
    if binaries_usable(fleet, usable) {
        Ok(())
    } else {
        let i = choose|i: int| first_unusable(fleet, usable, i);
        Err(ErrorView::BinaryNotFound { member: fleet[i].name })
    }
}

/// The outcome of validation: the binary check, then the port check.
pub open spec fn validation(fleet: Seq<NodeSpecView>, usable: Seq<bool>) -> Result<(), ErrorView> {
    match binary_check(fleet, usable) {
        Ok(()) => port_check(fleet),
        Err(e) => Err(e),
    }
}

impl Config {
    /// The first index below `limit` at which `ports` declares `number`.
    fn position(ports: &Vec<Port>, limit: usize, number: u16) -> (found: Option<usize>)
        requires
            limit <= ports@.len(),
        ensures
            match found {
                Some(a) => {
                    &&& a < limit
                    &&& ports@[a as int].number == number
                    &&& forall|k: int| 0 <= k < a ==> ports@[k].number != number
                },
                None => forall|k: int| 0 <= k < limit ==> ports@[k].number != number,
            },
    {
        let mut a: usize = 0;
        while a < limit
            invariant
                a <= limit <= ports@.len(),
                forall|k: int| 0 <= k < a ==> ports@[k].number != number,
            decreases limit - a,
        {
            if ports[a].number == number {
                return Some(a);
            }
            a += 1;
        }
        None
    }

    /// A slot before port `b` of member `j` that declares the same number, if
    /// there is one.
    fn earlier_declaration(&self, j: usize, b: usize) -> (found: Option<(usize, usize)>)
        requires
            j < self.members@.len(),
            b < self.members@[j as int].ports@.len(),
        ensures
            match found {
                Some((i, a)) => collide(
                    self@,
                    Slot { member: i as int, port: a as int },
                    Slot { member: j as int, port: b as int },
                ),
                None => forall|s: Slot|
                    !#[trigger] collide(self@, s, Slot { member: j as int, port: b as int }),
            },
    {
        let ghost target = Slot { member: j as int, port: b as int };
        let number = self.members[j].ports[b].number;
        let mut i: usize = 0;
        while i < j
            invariant
                i <= j < self.members@.len(),
                b < self.members@[j as int].ports@.len(),
                target == (Slot { member: j as int, port: b as int }),
                number == target.number(self@),
                forall|s: Slot| #[trigger] collide(self@, s, target) ==> s.member >= i,
            decreases j - i,
        {
            let ports = &self.members[i].ports;
            match Self::position(ports, ports.len(), number) {
                Some(a) => {
                    return Some((i, a));
                },
                None => {},
            }
            i += 1;
        }
        match Self::position(&self.members[j].ports, b, number) {
            Some(a) => Some((j, a)),
            None => None,
        }
    }

    /// Checks that no port number is declared twice across the fleet, by one
    /// member or by two. On failure the error names the two members of the
    /// earliest collision and the port.
    pub fn ensure_unique_ports(&self) -> (outcome: Result<(), Error>)
        ensures
            outcome_view(outcome) == port_check(self@),
    {
        let mut j: usize = 0;
        while j < self.members.len()
            invariant
                j <= self.members@.len(),
                forall|x: Slot, y: Slot| #[trigger] collide(self@, x, y) ==> y.member >= j,
            decreases self.members@.len() - j,
        {
            let mut b: usize = 0;
            while b < self.members[j].ports.len()
                invariant
                    j < self.members@.len(),
                    b <= self.members@[j as int].ports@.len(),
                    forall|x: Slot, y: Slot| #[trigger]
                        collide(self@, x, y) ==> !y.before(Slot { member: j as int, port: b as int }),
                decreases self.members@[j as int].ports@.len() - b,
            {
                match self.earlier_declaration(j, b) {
                    Some((i, a)) => {
                        proof {
                            lemma_port_check_names_earliest(
                                self@,
                                Slot { member: i as int, port: a as int },
                                Slot { member: j as int, port: b as int },
                            );
                        }
                        return Err(
                            Error::DuplicatePort {
                                first: self.members[i].name.clone(),
                                second: self.members[j].name.clone(),
                                port: self.members[j].ports[b].number,
                            },
                        );
                    },
                    None => {},
                }
                b += 1;
            }
            j += 1;
        }
        Ok(())
    }

    /// Checks that every member's binary was found usable. `usable` holds, in
    /// the members' order, whether each binary is a readable, executable
    /// file; a member without an answer counts as unusable. On failure the
    /// error names the first such member.
    pub fn ensure_binaries(&self, usable: &Vec<bool>) -> (outcome: Result<(), Error>)
        ensures
            outcome_view(outcome) == binary_check(self@, usable@),
    {
        let mut i: usize = 0;
        while i < self.members.len()
            invariant
                i <= self.members@.len(),
                forall|k: int| 0 <= k < i ==> #[trigger] binary_usable(usable@, k),
            decreases self.members@.len() - i,
        {
            if !(i < usable.len() && usable[i]) {
                assert(first_unusable(self@, usable@, i as int));
                return Err(Error::BinaryNotFound { member: self.members[i].name.clone() });
            }
            i += 1;
        }
        Ok(())
    }

    /// Validates the fleet: first the binaries, then the ports. Nothing is
    /// started or written.
    pub fn validate(&self, usable: &Vec<bool>) -> (outcome: Result<(), Error>)
        ensures
            outcome_view(outcome) == validation(self@, usable@),
    {
        match self.ensure_binaries(usable) {
            Ok(()) => self.ensure_unique_ports(),
            Err(e) => Err(e),
        }
    }
}

/// The tasks of a fleet of which nothing has been started: one for each
/// member, in the members' order, each with the same output destination.
pub open spec fn fresh_tasks(fleet: Seq<NodeSpecView>, output: OutputView) -> Seq<TaskView> {
    Seq::new(fleet.len(), |i: int| TaskView::fresh(fleet[i], output))
}

impl Config {
    /// Turns the members into tasks, in their order, and leaves the fleet
    /// without members.
    pub fn generate_tasks(&mut self, output: &Output) -> (tasks: Vec<Task>)
        ensures
            tasks.deep_view() == fresh_tasks(old(self)@, output@),
            forall|i: int| 0 <= i < tasks@.len() ==> (#[trigger] tasks@[i]).wf(),
            final(self)@.len() == 0,
    {
        let ghost fleet = self@;
        let mut tasks: Vec<Task> = Vec::new();
        while self.members.len() > 0
            invariant
                tasks@.len() + self.members@.len() == fleet.len(),
                forall|i: int| 0 <= i < tasks@.len() ==> (#[trigger] tasks@[i])@ == TaskView::fresh(
                    fleet[i],
                    output@,
                ),
                forall|i: int| 0 <= i < tasks@.len() ==> (#[trigger] tasks@[i]).wf(),
                forall|i: int|
                    0 <= i < self.members@.len() ==> (#[trigger] self.members@[i])@ == fleet[tasks@.len()
                        + i],
            decreases self.members@.len(),
        {
            let member = self.members.remove(0);
            tasks.push(Task::new(member, output.duplicate()));
        }
        tasks
    }
}

/// A fleet has at most one earliest collision.
pub proof fn lemma_earliest_collision_unique(
    fleet: Seq<NodeSpecView>,
    first: Slot,
    second: Slot,
    other_first: Slot,
    other_second: Slot,
)
    requires
        earliest_collision(fleet, first, second),
        earliest_collision(fleet, other_first, other_second),
    ensures
        first == other_first,
        second == other_second,
{
    if first != other_first {
        if first.before(other_first) {
            assert(collide(fleet, first, other_first));
        } else {
            assert(collide(fleet, other_first, first));
        }
    }
}

/// Where `first` and `second` are the earliest collision of `fleet`, the port
/// check fails and names them.
pub proof fn lemma_port_check_names_earliest(fleet: Seq<NodeSpecView>, first: Slot, second: Slot)
    requires
        earliest_collision(fleet, first, second),
    ensures
        port_check(fleet) == Err::<(), ErrorView>(
            ErrorView::DuplicatePort {
                first: fleet[first.member].name,
                second: fleet[second.member].name,
                port: second.number(fleet),
            },
        ),
{
    let witness = (first, second);
    assert(earliest_collision(fleet, witness.0, witness.1));
    let chosen = choose|pair: (Slot, Slot)| earliest_collision(fleet, pair.0, pair.1);
    lemma_earliest_collision_unique(fleet, first, second, chosen.0, chosen.1);
}

/// In a fleet that passes the port check, two different members declare no
/// port number in common.
pub proof fn lemma_checked_members_disjoint(fleet: Seq<NodeSpecView>, i: int, j: int)
    requires
        port_check(fleet) is Ok,
        0 <= i < fleet.len(),
        0 <= j < fleet.len(),
        i != j,
    ensures
        forall|a: int, b: int|
            0 <= a < fleet[i].ports.len() && 0 <= b < fleet[j].ports.len()
                ==> fleet[i].ports[a].number != fleet[j].ports[b].number,
{
    assert forall|a: int, b: int|
        0 <= a < fleet[i].ports.len() && 0 <= b < fleet[j].ports.len()
        implies fleet[i].ports[a].number != fleet[j].ports[b].number by {
        let x = Slot { member: i, port: a };
        let y = Slot { member: j, port: b };
        if i < j {
            assert(!collide(fleet, x, y));
        } else {
            assert(!collide(fleet, y, x));
        }
    }
}

/// A fleet in which two different members declare a port number in common
/// fails the port check.
pub proof fn lemma_overlap_fails_check(fleet: Seq<NodeSpecView>, i: int, a: int, j: int, b: int)
    requires
        0 <= i < fleet.len(),
        0 <= j < fleet.len(),
        i != j,
        0 <= a < fleet[i].ports.len(),
        0 <= b < fleet[j].ports.len(),
        fleet[i].ports[a].number == fleet[j].ports[b].number,
    ensures
        port_check(fleet) is Err,
{
    let x = Slot { member: i, port: a };
    let y = Slot { member: j, port: b };
    if i < j {
        assert(collide(fleet, x, y));
    } else {
        assert(collide(fleet, y, x));
    }
}

} // verus!
