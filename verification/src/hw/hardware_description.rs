//! Queries on the set of pins a piece of hardware has.

use vstd::prelude::*;

use crate::hw_definition::description::{HardwareDetails, PinDescription, PinDescriptionSet};
use crate::hw_definition::pin_function::{InputPull, PinFunction};
use crate::hw_definition::{BCMPinNumber, PinLevel};
use crate::text::{decimal_text, spec_decimal};

verus! {

/// A pin that can be configured: it has a [BCMPinNumber](crate::hw_definition::BCMPinNumber)
/// and more than one function to choose from
pub open spec fn is_selectable(pin: PinDescription) -> bool {
    pin.options@.len() > 1 && pin.bcm is Some
}

/// The key pins are ordered by in the BCM layout: the BCM pin number
pub open spec fn bcm_key(pin: PinDescription) -> int {
    match pin.bcm {
        Some(n) => n as int,
        None => 0,
    }
}

/// The selectable pins, in the order given
pub open spec fn spec_selectable(pins: Seq<PinDescription>) -> Seq<PinDescription> {
    pins.filter(|p: PinDescription| is_selectable(p))
}

/// The pins of `pins` whose BCM pin number is `k`, in the order given
pub open spec fn with_key(pins: Seq<PinDescription>, k: int) -> Seq<PinDescription> {
    pins.filter(|p: PinDescription| bcm_key(p) == k)
}

/// `pins` is in ascending order of BCM pin number
pub open spec fn sorted_by_bcm(pins: Seq<PinDescription>) -> bool {
    forall|i: int, j: int| 0 <= i < j < pins.len() ==> bcm_key(pins[i]) <= bcm_key(pins[j])
}

proof fn lemma_filter_singleton(x: PinDescription, pred: spec_fn(PinDescription) -> bool)
    ensures
        seq![x].filter(pred) == (if pred(x) { seq![x] } else { Seq::<PinDescription>::empty() }),
{
    reveal(Seq::filter);
    assert(seq![x].drop_last() =~= Seq::<PinDescription>::empty());
    assert(Seq::<PinDescription>::empty().filter(pred) =~= Seq::<PinDescription>::empty());
}

proof fn lemma_filter_none(s: Seq<PinDescription>, pred: spec_fn(PinDescription) -> bool)
    requires
        forall|i: int| 0 <= i < s.len() ==> !pred(#[trigger] s[i]),
    ensures
        s.filter(pred) == Seq::<PinDescription>::empty(),
    decreases s.len(),
{
    reveal(Seq::filter);
    if s.len() > 0 {
        lemma_filter_none(s.drop_last(), pred);
        assert(!pred(s.last()));
    }
    assert(s.filter(pred) =~= Seq::<PinDescription>::empty());
}

/// Inserting `x` after every element with a key at most its own, and before every element with
/// a greater key, appends it to the elements with its key and leaves the others unchanged
proof fn lemma_insert_keeps_key_order(s: Seq<PinDescription>, pos: int, x: PinDescription, k: int)
    requires
        0 <= pos <= s.len(),
        forall|i: int| 0 <= i < pos ==> bcm_key(#[trigger] s[i]) <= bcm_key(x),
        forall|i: int| pos <= i < s.len() ==> bcm_key(#[trigger] s[i]) > bcm_key(x),
    ensures
        with_key(s.insert(pos, x), k) == (if bcm_key(x) == k {
            with_key(s, k).push(x)
        } else {
            with_key(s, k)
        }),
{
    let pred = |p: PinDescription| bcm_key(p) == k;
    let a = s.subrange(0, pos);
    let b = s.subrange(pos, s.len() as int);
    assert(s =~= a + b);
    assert(s.insert(pos, x) =~= (a + seq![x]) + b);
    Seq::filter_distributes_over_add(a + seq![x], b, pred);
    Seq::filter_distributes_over_add(a, seq![x], pred);
    Seq::filter_distributes_over_add(a, b, pred);
    lemma_filter_singleton(x, pred);
    if bcm_key(x) == k {
        assert forall|i: int| 0 <= i < b.len() implies !pred(#[trigger] b[i]) by {
            assert(b[i] == s[pos + i]);
        }
        lemma_filter_none(b, pred);
        assert(a.filter(pred) + seq![x] + Seq::<PinDescription>::empty() =~= (a.filter(pred)
            + Seq::<PinDescription>::empty()).push(x));
    } else {
        assert(a.filter(pred) + Seq::<PinDescription>::empty() =~= a.filter(pred));
        assert(a.filter(pred) + Seq::<PinDescription>::empty() + b.filter(pred) =~= a.filter(
            pred,
        ) + b.filter(pred));
    }
}

impl PinDescriptionSet {
    /// Return a slice of PinDescriptions
    pub fn pins(&self) -> (res: &[PinDescription])
        ensures
            res@ == self.pins@,
    {
        self.pins.as_slice()
    }

    /// Return the PinDescriptions *only* of the pins that have a BCM pin number and more than one
    /// function to choose from, sorted in ascending order of [BCMPinNumber]. Pins with the same
    /// BCM pin number keep the order they have in the set.
    pub fn bcm_pins_sorted(&self) -> (res: Vec<&PinDescription>)
        ensures
            sorted_by_bcm(res@.unref()),
            forall|k: int|
                with_key(res@.unref(), k) == with_key(spec_selectable(self.pins@), k),
            res@.unref().to_multiset() == spec_selectable(self.pins@).to_multiset(),
    {
        let mut res: Vec<&PinDescription> = Vec::new();
        let mut i: usize = 0;
        proof {
            reveal(Seq::filter);
            assert(self.pins@.subrange(0, 0) =~= Seq::<PinDescription>::empty());
            assert(res@.unref() =~= spec_selectable(self.pins@.subrange(0, 0)));
        }
        while i < self.pins.len()
            invariant
                i <= self.pins@.len(),
                sorted_by_bcm(res@.unref()),
                forall|k: int|
                    with_key(res@.unref(), k) == with_key(
                        spec_selectable(self.pins@.subrange(0, i as int)),
                        k,
                    ),
                res@.unref().to_multiset() == spec_selectable(
                    self.pins@.subrange(0, i as int),
                ).to_multiset(),
            decreases self.pins@.len() - i,
        {
            let pin = &self.pins[i];
            let ghost prefix = self.pins@.subrange(0, i as int);
            let ghost next = self.pins@.subrange(0, i + 1);
            proof {
                assert(next =~= prefix.push(*pin));
                reveal(Seq::filter);
                assert(next.drop_last() =~= prefix);
            }
            if pin.options.len() > 1 && pin.bcm.is_some() {
                let key = key_of(pin);
                // find the first position holding a greater BCM pin number
                let mut pos: usize = 0;
                while pos < res.len() && key_of(res[pos]) <= key
                    invariant
                        pos <= res@.len(),
                        forall|j: int| 0 <= j < pos ==> bcm_key(*#[trigger] res@[j]) <= key,
                    decreases res@.len() - pos,
                {
                    pos = pos + 1;
                }
                let ghost before = res@.unref();
                proof {
                    assert forall|j: int| pos <= j < before.len() implies bcm_key(
                        #[trigger] before[j],
                    ) > key by {
                        if pos < before.len() {
                            assert(bcm_key(before[pos as int]) > key);
                            if j > pos {
                                assert(bcm_key(before[pos as int]) <= bcm_key(before[j]));
                            }
                        }
                    }
                }
                res.insert(pos, pin);
                proof {
                    assert(res@.unref() =~= before.insert(pos as int, *pin));
                    assert forall|k: int|
                        with_key(res@.unref(), k) == with_key(spec_selectable(next), k) by {
                        lemma_insert_keeps_key_order(before, pos as int, *pin, k);
                        let sp = |p: PinDescription| is_selectable(p);
                        assert(spec_selectable(next) == spec_selectable(prefix).push(*pin));
                        lemma_filter_push_key(spec_selectable(prefix), *pin, k);
                    }
                    assert(spec_selectable(next) == spec_selectable(prefix).push(*pin));
                    lemma_insert_to_multiset(before, pos as int, *pin);
                    spec_selectable(prefix).to_multiset_ensures();
                    assert forall|a: int, b: int| 0 <= a < b < res@.len() implies bcm_key(
                        res@.unref()[a],
                    ) <= bcm_key(res@.unref()[b]) by {
                        let r = res@.unref();
                        if b < pos {
                        } else if b == pos {
                        } else if a < pos {
                        } else if a == pos {
                            assert(r[b] == before[b - 1]);
                        } else {
                            assert(r[a] == before[a - 1]);
                            assert(r[b] == before[b - 1]);
                        }
                    }
                }
            } else {
                proof {
                    assert(spec_selectable(next) == spec_selectable(prefix));
                }
            }
            i = i + 1;
        }
        proof {
            assert(self.pins@.subrange(0, i as int) =~= self.pins@);
        }
        res
    }
}

proof fn lemma_insert_to_multiset(s: Seq<PinDescription>, pos: int, x: PinDescription)
    requires
        0 <= pos <= s.len(),
    ensures
        s.insert(pos, x).to_multiset() == s.to_multiset().insert(x),
{
    let t = s.insert(pos, x);
    t.to_multiset_ensures();
    assert(t.remove(pos) =~= s);
    assert(t[pos] == x);
    assert(t.contains(x));
    assert(t.to_multiset() =~= s.to_multiset().insert(x)) by {
        assert forall|y: PinDescription| t.to_multiset().count(y) == s.to_multiset().insert(x).count(
            y,
        ) by {
            assert(t.to_multiset().remove(x).count(y) == s.to_multiset().count(y));
        }
    }
}

/// The BCM pin number of `pin`, 0 for a pin without one
fn key_of(pin: &PinDescription) -> (res: u8)
    ensures
        res == bcm_key(*pin),
{
    match pin.bcm {
        Some(n) => n,
        None => 0,
    }
}

proof fn lemma_filter_push_key(s: Seq<PinDescription>, x: PinDescription, k: int)
    ensures
        with_key(s.push(x), k) == (if bcm_key(x) == k {
            with_key(s, k).push(x)
        } else {
            with_key(s, k)
        }),
{
    reveal(Seq::filter);
    assert(s.push(x).drop_last() =~= s);
}

/// The text of the details of a board: a line each for its hardware, revision and serial
/// number, then its model
pub open spec fn spec_details_text(details: HardwareDetails) -> Seq<char> {
    "Hardware: "@ + details.hardware@ + "\nRevision: "@ + details.revision@ + "\nSerial: "@
        + details.serial@ + "\nModel: "@ + details.model@
}

impl HardwareDetails {
    /// The text of the details: a line each for the hardware, revision and serial number, then
    /// the model
    pub fn to_string(&self) -> (res: String)
        ensures
            res@ == spec_details_text(*self),
    {
        let mut res = String::from_str("Hardware: ");
        res.append(self.hardware.as_str());
        res.append("\nRevision: ");
        res.append(self.revision.as_str());
        res.append("\nSerial: ");
        res.append(self.serial.as_str());
        res.append("\nModel: ");
        res.append(self.model.as_str());
        res
    }
}

/// The debugging text of a pull: the name of its variant
pub open spec fn spec_pull_debug(pull: InputPull) -> Seq<char> {
    match pull {
        InputPull::PullUp => "PullUp"@,
        InputPull::PullDown => "PullDown"@,
        InputPull::NoPull => "None"@,
    }
}

/// The debugging text of an optional level
pub open spec fn spec_level_debug(level: Option<PinLevel>) -> Seq<char> {
    match level {
        None => "None"@,
        Some(true) => "Some(true)"@,
        Some(false) => "Some(false)"@,
    }
}

/// The debugging text of a pin function: "None" for no function, else the variant and its
/// optional pull or level
pub open spec fn spec_function_debug(pin_function: PinFunction) -> Seq<char> {
    match pin_function {
        PinFunction::Unused => "None"@,
        PinFunction::Input(None) => "Input(None)"@,
        PinFunction::Input(Some(pull)) => "Input(Some("@ + spec_pull_debug(pull) + "))"@,
        PinFunction::Output(level) => "Output("@ + spec_level_debug(level) + ")"@,
    }
}

/// The debugging texts of `functions`, separated by ", "
pub open spec fn spec_join_functions(functions: Seq<PinFunction>) -> Seq<char>
    decreases functions.len(),
{
    if functions.len() == 0 {
        Seq::empty()
    } else if functions.len() == 1 {
        spec_function_debug(functions[0])
    } else {
        spec_join_functions(functions.drop_last()) + ", "@ + spec_function_debug(functions.last())
    }
}

/// The debugging text of an optional BCM pin number
pub open spec fn spec_bcm_debug(bcm: Option<BCMPinNumber>) -> Seq<char> {
    match bcm {
        None => "None"@,
        Some(n) => "Some("@ + spec_decimal(n as nat) + ")"@,
    }
}

/// The text of a pin description: its board pin number, then, each on a line of its own
/// starting with a tab, its BCM pin number, its name and its functions
pub open spec fn spec_pin_text(pin: PinDescription) -> Seq<char> {
    "Board Pin #: "@ + spec_decimal(pin.bpn as nat) + "\n\tBCM Pin #: "@ + spec_bcm_debug(pin.bcm)
        + "\n\tName Pin #: "@ + pin.name@ + "\n\tFunctions #: "@ + "["@ + spec_join_functions(
        pin.options@,
    ) + "]"@ + "\n"@
}

/// The debugging text of a pull
fn pull_debug(pull: InputPull) -> (res: &'static str)
    ensures
        res@ == spec_pull_debug(pull),
{
    match pull {
        InputPull::PullUp => "PullUp",
        InputPull::PullDown => "PullDown",
        InputPull::NoPull => "None",
    }
}

/// The debugging text of a pin function
fn function_debug(pin_function: PinFunction) -> (res: String)
    ensures
        res@ == spec_function_debug(pin_function),
{
    match pin_function {
        PinFunction::Unused => String::from_str("None"),
        PinFunction::Input(None) => String::from_str("Input(None)"),
        PinFunction::Input(Some(pull)) => {
            let mut res = String::from_str("Input(Some(");
            res.append(pull_debug(pull));
            res.append("))");
            res
        },
        PinFunction::Output(level) => {
            let mut res = String::from_str("Output(");
            match level {
                None => res.append("None"),
                Some(true) => res.append("Some(true)"),
                Some(false) => res.append("Some(false)"),
            }
            res.append(")");
            res
        },
    }
}

impl PinDescription {
    /// The text of the description: the board pin number, then, each on a line of its own
    /// starting with a tab, the BCM pin number, the name and the functions of the pin
    pub fn to_string(&self) -> (res: String)
        ensures
            res@ == spec_pin_text(*self),
    {
        let mut res = String::from_str("Board Pin #: ");
        res.append(decimal_text(self.bpn).as_str());
        res.append("\n\tBCM Pin #: ");
        match self.bcm {
            None => res.append("None"),
            Some(n) => {
                res.append("Some(");
                res.append(decimal_text(n).as_str());
                res.append(")");
            },
        }
        res.append("\n\tName Pin #: ");
        res.append(self.name.as_str());
        res.append("\n\tFunctions #: ");
        res.append("[");
        let ghost before = res@;
        let mut i: usize = 0;
        while i < self.options.len()
            invariant
                i <= self.options@.len(),
                res@ == before + spec_join_functions(self.options@.take(i as int)),
            decreases self.options@.len() - i,
        {
            let ghost taken = self.options@.take(i + 1);
            proof {
                assert(taken.drop_last() =~= self.options@.take(i as int));
                assert(taken.last() == self.options@[i as int]);
            }
            if i > 0 {
                res.append(", ");
            }
            res.append(function_debug(self.options[i]).as_str());
            proof {
                if i == 0 {
                    assert(self.options@.take(0) =~= Seq::<PinFunction>::empty());
                    assert(taken.len() == 1);
                }
                assert(res@ =~= before + spec_join_functions(taken));
            }
            i = i + 1;
        }
        proof {
            assert(self.options@.take(i as int) =~= self.options@);
        }
        res.append("]");
        res.append("\n");
        proof {
            assert(res@ =~= spec_pin_text(*self));
        }
        res
    }
}

} // verus!
