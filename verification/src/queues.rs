//! Queues of printable items, one holding borrowed views and one
//! holding owned heap indirections, unified behind a `Printer`
//! capability. A closed enum of the crate's printable record types
//! stands in for run-time dispatch over an open set of types.

use vstd::prelude::*;

use crate::printing::PrintItem;
use crate::printing::Printable;

verus! {

/// A capability: a queue whose items can all be rendered in order.
pub trait Printer {
    /// The text of each queued item, in queue order.
    spec fn spec_lines(&self) -> Seq<Seq<char>>;

    /// Renders every queued item, in order.
    fn print(&self) -> (r: Vec<String>)
        ensures
            r@.len() == self.spec_lines().len(),
            forall|i: int| 0 <= i < r@.len() ==> r@[i]@ == self.spec_lines()[i],
    ;
}

/// A queue of borrowed items: the queue must not outlive the borrows,
/// so the owner of the items manages their lifetime.
pub struct PrintQueue<'a> {
    pub queue: Vec<&'a PrintItem>,
}

/// A queue of owned items behind heap indirections: each box has the
/// same size whatever it holds, and the item is freed with the box.
pub struct BoxPrintQueue {
    pub queue: Vec<Box<PrintItem>>,
}

impl<'a> Printer for PrintQueue<'a> {
    open spec fn spec_lines(&self) -> Seq<Seq<char>> {
        self.queue@.map_values(|item: &PrintItem| item.spec_print())
    }

    fn print(&self) -> (r: Vec<String>) {
        let mut out: Vec<String> = Vec::new();
        let mut i: usize = 0;
        while i < self.queue.len()
            invariant
                i <= self.queue@.len(),
                out@.len() == i,
                forall|j: int| 0 <= j < i ==> out@[j]@ == self.queue@[j].spec_print(),
            decreases self.queue@.len() - i,
        {
            let line = self.queue[i].print();
            out.push(line);
            i += 1;
        }
        out
    }
}

impl Printer for BoxPrintQueue {
    open spec fn spec_lines(&self) -> Seq<Seq<char>> {
        self.queue@.map_values(|item: Box<PrintItem>| item.spec_print())
    }

    fn print(&self) -> (r: Vec<String>) {
        let mut out: Vec<String> = Vec::new();
        let mut i: usize = 0;
        while i < self.queue.len()
            invariant
                i <= self.queue@.len(),
                out@.len() == i,
                forall|j: int| 0 <= j < i ==> out@[j]@ == self.queue@[j].spec_print(),
            decreases self.queue@.len() - i,
        {
            let line = self.queue[i].print();
            out.push(line);
            i += 1;
        }
        out
    }
}

/// Renders any printable item, resolved at compile time.
pub fn print_anything<T: Printable>(thing: &T) -> (r: String)
    ensures
        r@ == thing.spec_print(),
{
    thing.print()
}

} // verus!
