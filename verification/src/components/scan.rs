//! Going through a list of items that live in the browser.
//!
//! To find out whether an item is wanted takes a remote read, and to take it
//! takes a remote action. A [`ScanStep`] names the item to read or to take
//! next; the caller does so and reports back. A scan of a single-valued list
//! ends with the first item taken.

use vstd::prelude::*;

verus! {

/// A scan in progress, as far as its decisions go.
pub struct ScanModel {
    /// The number of items in the list.
    pub count: nat,
    /// Whether an item is read before it is taken. Without a read every item
    /// is wanted.
    pub probed: bool,
    /// Whether the scan ends with the first item taken.
    pub single: bool,
    /// The place of the item that the scan is at.
    pub item: nat,
    /// The number of items taken so far.
    pub taken: nat,
}

/// What a scan asks of its caller next, as far as its decisions go.
pub enum ScanStepModel {
    /// Read whether the item at `item` is wanted.
    Probe(ScanModel),
    /// Take the item at `item`.
    Take(ScanModel),
    /// The scan is over, with this many items taken.
    Done(nat),
}

impl ScanModel {
    /// The step that deals with the item at `item`: the end, where the list
    /// has no such item.
    pub open spec fn at(self, item: nat) -> ScanStepModel {
        if item >= self.count {
            ScanStepModel::Done(self.taken)
        } else if self.probed {
            ScanStepModel::Probe(ScanModel { item, ..self })
        } else {
            ScanStepModel::Take(ScanModel { item, ..self })
        }
    }

    /// The step that follows the read of the item.
    pub open spec fn read(self, wanted: bool) -> ScanStepModel {
        if wanted {
            ScanStepModel::Take(self)
        } else {
            self.at(self.item + 1)
        }
    }

    /// The step that follows once the item is taken.
    pub open spec fn took(self) -> ScanStepModel {
        if self.single {
            ScanStepModel::Done(self.taken + 1)
        } else {
            (ScanModel { taken: self.taken + 1, ..self }).at(self.item + 1)
        }
    }
}

/// The number of items below `count` that are wanted.
pub open spec fn wanted_below(wanted: spec_fn(nat) -> bool, count: nat) -> nat
    decreases count,
{
    if count == 0 {
        0
    } else {
        wanted_below(wanted, (count - 1) as nat) + if wanted((count - 1) as nat) {
            1nat
        } else {
            0nat
        }
    }
}

impl ScanStepModel {
    /// How far the step is from the end of the scan: items to go, and whether
    /// the item has been read already.
    pub open spec fn distance(self) -> (int, int) {
        match self {
            ScanStepModel::Probe(scan) => (scan.count - scan.item, 1),
            ScanStepModel::Take(scan) => (scan.count - scan.item, 0),
            ScanStepModel::Done(_) => (0, 0),
        }
    }

    /// The number of items taken when the scan is over, where the caller
    /// answers every read with what `wanted` says and takes every item it is
    /// asked to take.
    pub open spec fn outcome(self, wanted: spec_fn(nat) -> bool) -> nat
        decreases self.distance().0, self.distance().1,
    {
        match self {
            ScanStepModel::Probe(scan) => if scan.item < scan.count {
                scan.read(wanted(scan.item)).outcome(wanted)
            } else {
                scan.taken
            },
            ScanStepModel::Take(scan) => if scan.item < scan.count {
                scan.took().outcome(wanted)
            } else {
                scan.taken
            },
            ScanStepModel::Done(taken) => taken,
        }
    }
}

/// A scan that goes on from `item` with `taken` items taken ends with the
/// wanted items from `item` on taken as well, or with one more where the scan
/// is single and there is any.
proof fn scan_from(scan: ScanModel, wanted: spec_fn(nat) -> bool, item: nat)
    requires
        scan.probed,
        item <= scan.count,
    ensures
        scan.at(item).outcome(wanted) == scan.taken + if scan.single {
            if wanted_below(wanted, scan.count) > wanted_below(wanted, item) {
                1nat
            } else {
                0nat
            }
        } else {
            (wanted_below(wanted, scan.count) - wanted_below(wanted, item)) as nat
        },
        wanted_below(wanted, item) <= wanted_below(wanted, scan.count),
    decreases scan.count - item,
{
    if item < scan.count {
        let here = ScanModel { item, ..scan };
        scan_from(scan, wanted, item + 1);
        if wanted(item) {
            assert(ScanStepModel::Take(here).outcome(wanted) == here.took().outcome(wanted));
            if !scan.single {
                scan_from(ScanModel { taken: scan.taken + 1, ..scan }, wanted, item + 1);
            }
        }
    }
}

/// A scan with reads takes exactly the items that are wanted, and only the
/// first of them where it is single.
pub proof fn scan_takes_what_is_wanted(
    count: nat,
    single: bool,
    wanted: spec_fn(nat) -> bool,
)
    ensures
        (ScanModel { count, probed: true, single, item: 0, taken: 0 }).at(0).outcome(wanted)
            == if single {
            if wanted_below(wanted, count) > 0 {
                1nat
            } else {
                0nat
            }
        } else {
            wanted_below(wanted, count)
        },
{
    scan_from(ScanModel { count, probed: true, single, item: 0, taken: 0 }, wanted, 0);
}

/// A scan without reads that goes on from `item` takes every item from there
/// on, or the one at `item` alone where it is single.
proof fn unread_from(scan: ScanModel, wanted: spec_fn(nat) -> bool, item: nat)
    requires
        !scan.probed,
        item <= scan.count,
    ensures
        scan.at(item).outcome(wanted) == scan.taken + if scan.single && item < scan.count {
            1nat
        } else {
            (scan.count - item) as nat
        },
    decreases scan.count - item,
{
    if item < scan.count {
        if scan.single {
            assert(ScanStepModel::Done(scan.taken + 1).outcome(wanted) == scan.taken + 1);
        } else {
            unread_from(ScanModel { taken: scan.taken + 1, ..scan }, wanted, item + 1);
        }
    }
}

/// A scan without reads takes every item of the list, and only the first
/// where it is single.
pub proof fn scan_without_reads_takes_every_item(
    count: nat,
    single: bool,
    wanted: spec_fn(nat) -> bool,
)
    ensures
        (ScanModel { count, probed: false, single, item: 0, taken: 0 }).at(0).outcome(wanted)
            == if single && count > 0 {
            1nat
        } else {
            count
        },
{
    unread_from(ScanModel { count, probed: false, single, item: 0, taken: 0 }, wanted, 0);
}

/// What every step of a scan carries along.
#[derive(Debug)]
struct Scan {
    count: usize,
    probed: bool,
    single: bool,
    item: usize,
    taken: usize,
}

impl View for Scan {
    type V = ScanModel;

    closed spec fn view(&self) -> ScanModel {
        ScanModel {
            count: self.count as nat,
            probed: self.probed,
            single: self.single,
            item: self.item as nat,
            taken: self.taken as nat,
        }
    }
}

/// A scan that waits to hear whether an item is wanted.
#[derive(Debug)]
pub struct Probing {
    scan: Scan,
}

/// A scan that waits for an item to be taken.
#[derive(Debug)]
pub struct Taking {
    scan: Scan,
}

impl View for Probing {
    type V = ScanModel;

    closed spec fn view(&self) -> ScanModel {
        self.scan@
    }
}

impl View for Taking {
    type V = ScanModel;

    closed spec fn view(&self) -> ScanModel {
        self.scan@
    }
}

/// What a scan asks of its caller next.
#[derive(Debug)]
pub enum ScanStep {
    /// Read whether the item that the scan names is wanted, and hand the
    /// answer to [`Probing::read`].
    Probe(Probing),
    /// Take the item that the scan names, then call [`Taking::took`].
    Take(Taking),
    /// The scan is over, with this many items taken.
    Done(usize),
}

impl View for ScanStep {
    type V = ScanStepModel;

    open spec fn view(&self) -> ScanStepModel {
        match *self {
            ScanStep::Probe(scan) => ScanStepModel::Probe(scan@),
            ScanStep::Take(scan) => ScanStepModel::Take(scan@),
            ScanStep::Done(taken) => ScanStepModel::Done(taken as nat),
        }
    }
}

impl Scan {
    spec fn well_formed(self) -> bool {
        self.item < self.count && self.taken <= self.item
    }

    fn at(self, item: usize) -> (step: ScanStep)
        requires
            self.taken <= item,
        ensures
            step@ == self@.at(item as nat),
    {
        if item >= self.count {
            ScanStep::Done(self.taken)
        } else if self.probed {
            ScanStep::Probe(Probing { scan: Scan { item, ..self } })
        } else {
            ScanStep::Take(Taking { scan: Scan { item, ..self } })
        }
    }
}

/// Begins a scan of a list of `count` items. With `probed` every item is read
/// before it is taken; without, every item is taken. With `single` the scan
/// ends with the first item taken.
pub fn scan(count: usize, probed: bool, single: bool) -> (step: ScanStep)
    ensures
        step@ == (ScanModel { count: count as nat, probed, single, item: 0, taken: 0 }).at(0),
{
    (Scan { count, probed, single, item: 0, taken: 0 }).at(0)
}

impl Probing {
    #[verifier::type_invariant]
    spec fn well_formed(self) -> bool {
        self.scan.well_formed()
    }

    /// The place of the item to read.
    pub fn item(&self) -> (item: usize)
        ensures
            item == self@.item,
            item < self@.count,
    {
        proof {
            use_type_invariant(self);
        }
        self.scan.item
    }

    /// Takes the answer of the read: a wanted item is taken next, any other
    /// is passed over.
    pub fn read(self, wanted: bool) -> (step: ScanStep)
        ensures
            step@ == self@.read(wanted),
    {
        proof {
            use_type_invariant(&self);
        }
        if wanted {
            ScanStep::Take(Taking { scan: self.scan })
        } else {
            let next: usize = self.scan.item + 1;
            self.scan.at(next)
        }
    }
}

impl Taking {
    #[verifier::type_invariant]
    spec fn well_formed(self) -> bool {
        self.scan.well_formed()
    }

    /// The place of the item to take.
    pub fn item(&self) -> (item: usize)
        ensures
            item == self@.item,
            item < self@.count,
    {
        proof {
            use_type_invariant(self);
        }
        self.scan.item
    }

    /// Counts the item as taken and goes on, unless the scan is single.
    pub fn took(self) -> (step: ScanStep)
        ensures
            step@ == self@.took(),
    {
        proof {
            use_type_invariant(&self);
        }
        let Scan { count, probed, single, item, taken } = self.scan;
        if single {
            ScanStep::Done(taken + 1)
        } else {
            (Scan { count, probed, single, item, taken: taken + 1 }).at(item + 1)
        }
    }
}

} // verus!
