//! The interrupt that serves an MCU peripheral in each context, looked up in the table of
//! interrupts by context.
use vstd::prelude::*;
use crate::text::{keys_are_distinct, keys_distinct, str_eq};

verus! {

/// The interrupt that serves a peripheral in a context.
pub struct ContextInterrupt {
    pub context: String,
    pub interrupt: String,
}

impl ContextInterrupt {
    /// Returns the context.
    pub fn context(&self) -> (r: &str)
        ensures
            r@ == self.context@,
    {
        self.context.as_str()
    }

    /// Returns the interrupt.
    pub fn interrupt(&self) -> (r: &str)
        ensures
            r@ == self.interrupt@,
    {
        self.interrupt.as_str()
    }

    pub open spec fn view(&self) -> (Seq<char>, Seq<char>) {
        (self.context@, self.interrupt@)
    }
}

/// The interrupts of a context: for each peripheral, the interrupt that serves it.
pub struct ContextInterrupts {
    pub context: String,
    pub interrupts: Vec<(String, String)>,
}

/// The interrupt of the first entry of `interrupts` for `peripheral`, if any.
pub open spec fn spec_interrupt_of(
    interrupts: Seq<(String, String)>,
    peripheral: Seq<char>,
) -> Option<Seq<char>>
    decreases interrupts.len(),
{
    if interrupts.len() == 0 {
        None
    } else if interrupts[0].0@ == peripheral {
        Some(interrupts[0].1@)
    } else {
        spec_interrupt_of(interrupts.drop_first(), peripheral)
    }
}

/// For each context that has an interrupt for `peripheral`, in the order of the table, the
/// context and that interrupt.
pub open spec fn spec_interrupts_for(
    table: Seq<ContextInterrupts>,
    peripheral: Seq<char>,
) -> Seq<(Seq<char>, Seq<char>)>
    decreases table.len(),
{
    if table.len() == 0 {
        Seq::empty()
    } else {
        let rest = spec_interrupts_for(table.drop_last(), peripheral);
        match spec_interrupt_of(table.last().interrupts@, peripheral) {
            Some(i) => rest.push((table.last().context@, i)),
            None => rest,
        }
    }
}

/// Returns the interrupt that serves `peripheral` among the interrupts of a context.
pub fn interrupt_of<'a>(interrupts: &'a Vec<(String, String)>, peripheral: &str) -> (r: Option<&'a String>)
    requires
        keys_distinct(interrupts@),
    ensures
        match r {
            Some(i) => spec_interrupt_of(interrupts@, peripheral@) == Some(i@),
            None => spec_interrupt_of(interrupts@, peripheral@) is None,
        },
{
    let mut k: usize = 0;
    assert(interrupts@.skip(0) =~= interrupts@);
    while k < interrupts.len()
        invariant
            k <= interrupts@.len(),
            spec_interrupt_of(interrupts@, peripheral@) == spec_interrupt_of(
                interrupts@.skip(k as int),
                peripheral@,
            ),
        decreases interrupts@.len() - k,
    {
        assert(interrupts@.skip(k as int)[0] == interrupts@[k as int]);
        assert(interrupts@.skip(k as int).drop_first() =~= interrupts@.skip(k + 1));
        if str_eq(interrupts[k].0.as_str(), peripheral) {
            return Some(&interrupts[k].1);
        }
        k = k + 1;
    }
    None
}

/// Returns, for each context of the table that has an interrupt for `peripheral`, the context
/// and that interrupt, in the order of the table.
pub fn interrupt_for_peripheral(table: &Vec<ContextInterrupts>, peripheral: &str) -> (r: Vec<
    ContextInterrupt,
>)
    requires
        table_well_formed(table@),
    ensures
        r@.map_values(|c: ContextInterrupt| c@) == spec_interrupts_for(table@, peripheral@),
{
    let mut r: Vec<ContextInterrupt> = Vec::new();
    let mut i: usize = 0;
    while i < table.len()
        invariant
            i <= table@.len(),
            r@.map_values(|c: ContextInterrupt| c@) =~= spec_interrupts_for(
                table@.take(i as int),
                peripheral@,
            ),
            table_well_formed(table@),
        decreases table@.len() - i,
    {
        assert(table@.take(i + 1).drop_last() =~= table@.take(i as int));
        let entry = &table[i];
        match interrupt_of(&entry.interrupts, peripheral) {
            Some(interrupt) => {
                let found = ContextInterrupt { context: entry.context.clone(), interrupt: interrupt.clone() };
                let ghost before = r@;
                r.push(found);
                assert(r@.map_values(|c: ContextInterrupt| c@) =~= before.map_values(
                    |c: ContextInterrupt| c@,
                ).push(found@));
            },
            None => {},
        }
        i = i + 1;
    }
    assert(table@.take(table@.len() as int) =~= table@);
    r
}

/// The table is a map of maps: no context is listed twice, and no peripheral twice within a
/// context.
pub open spec fn table_well_formed(table: Seq<ContextInterrupts>) -> bool {
    &&& forall|i: int, j: int| 0 <= i < j < table.len() ==> (#[trigger] table[i]).context@ != (#[trigger] table[j]).context@
    &&& forall|i: int| 0 <= i < table.len() ==> keys_distinct((#[trigger] table[i]).interrupts@)
}

/// Returns whether no context is listed twice in the table, and no peripheral twice within a
/// context.
pub fn table_is_well_formed(table: &Vec<ContextInterrupts>) -> (r: bool)
    ensures
        r == table_well_formed(table@),
{
    let n = table.len();
    let mut i: usize = 0;
    while i < n
        invariant
            n == table@.len(),
            i <= n,
            forall|a: int, b: int| 0 <= a < i && a < b < n ==> (#[trigger] table@[a]).context@ != (#[trigger] table@[b]).context@,
            forall|a: int| 0 <= a < i ==> keys_distinct((#[trigger] table@[a]).interrupts@),
        decreases n - i,
    {
        if !keys_are_distinct(&table[i].interrupts) {
            return false;
        }
        let mut j: usize = i + 1;
        while j < n
            invariant
                n == table@.len(),
                i < n,
                i + 1 <= j <= n,
                forall|a: int, b: int| 0 <= a < i && a < b < n ==> (#[trigger] table@[a]).context@ != (#[trigger] table@[b]).context@,
                forall|b: int| i < b < j ==> table@[i as int].context@ != (#[trigger] table@[b]).context@,
            decreases n - j,
        {
            if str_eq(table[i].context.as_str(), table[j].context.as_str()) {
                return false;
            }
            j = j + 1;
        }
        i = i + 1;
    }
    true
}

/// In a list without repeated peripherals, the interrupt found for a peripheral is the one the
/// list maps it to, and none is found exactly when the list does not name the peripheral.
pub proof fn law_interrupt_lookup(interrupts: Seq<(String, String)>, peripheral: Seq<char>, interrupt: Seq<char>)
    requires
        keys_distinct(interrupts),
    ensures
        spec_interrupt_of(interrupts, peripheral) == Some(interrupt) <==> exists|k: int|
            0 <= k < interrupts.len() && (#[trigger] interrupts[k]).0@ == peripheral && interrupts[k].1@
                == interrupt,
        spec_interrupt_of(interrupts, peripheral) is None <==> forall|k: int|
            0 <= k < interrupts.len() ==> (#[trigger] interrupts[k]).0@ != peripheral,
    decreases interrupts.len(),
{
    if interrupts.len() > 0 {
        let rest = interrupts.drop_first();
        assert forall|i: int, j: int| 0 <= i < j < rest.len() implies (#[trigger] rest[i]).0@ != (#[trigger] rest[j]).0@ by {
            assert(rest[i] == interrupts[i + 1]);
            assert(rest[j] == interrupts[j + 1]);
        }
        law_interrupt_lookup(rest, peripheral, interrupt);
        if interrupts[0].0@ == peripheral {
            assert forall|k: int| 0 <= k < interrupts.len() && (#[trigger] interrupts[k]).0@ == peripheral implies k == 0 by {
                if k > 0 {
                    assert(interrupts[0].0@ != interrupts[k].0@);
                }
            }
        } else {
            assert forall|k: int| 0 < k < interrupts.len() implies #[trigger] interrupts[k] == rest[k - 1] by {}
            if exists|k: int| 0 <= k < interrupts.len() && (#[trigger] interrupts[k]).0@ == peripheral && interrupts[k].1@ == interrupt {
                let k = choose|k: int| 0 <= k < interrupts.len() && (#[trigger] interrupts[k]).0@ == peripheral && interrupts[k].1@ == interrupt;
                assert(rest[k - 1] == interrupts[k]);
            }
            if exists|k: int| 0 <= k < interrupts.len() && (#[trigger] interrupts[k]).0@ == peripheral {
                let k = choose|k: int| 0 <= k < interrupts.len() && (#[trigger] interrupts[k]).0@ == peripheral;
                assert(rest[k - 1] == interrupts[k]);
            }
        }
    }
}

/// A context appears in the result of a lookup, with an interrupt, exactly when its list maps
/// the peripheral to that interrupt, wherever the pair stands in the list.
pub proof fn law_interrupts_found(table: Seq<ContextInterrupts>, peripheral: Seq<char>, context: Seq<char>, interrupt: Seq<char>)
    requires
        table_well_formed(table),
    ensures
        spec_interrupts_for(table, peripheral).contains((context, interrupt)) <==> exists|k: int, j: int|
            0 <= k < table.len() && 0 <= j < table[k].interrupts@.len() && (#[trigger] table[k]).context@
                == context && (#[trigger] table[k].interrupts@[j]).0@ == peripheral
                && table[k].interrupts@[j].1@ == interrupt,
    decreases table.len(),
{
    if table.len() > 0 {
        let rest = table.drop_last();
        let last = table.last();
        assert forall|i: int| 0 <= i < rest.len() implies #[trigger] rest[i] == table[i] by {}
        law_interrupts_found(rest, peripheral, context, interrupt);
        law_interrupt_lookup(last.interrupts@, peripheral, interrupt);
        let found = spec_interrupts_for(table, peripheral);
        let before = spec_interrupts_for(rest, peripheral);
        let w = exists|k: int, j: int|
            0 <= k < table.len() && 0 <= j < table[k].interrupts@.len() && (#[trigger] table[k]).context@
                == context && (#[trigger] table[k].interrupts@[j]).0@ == peripheral
                && table[k].interrupts@[j].1@ == interrupt;
        let w_rest = exists|k: int, j: int|
            0 <= k < rest.len() && 0 <= j < rest[k].interrupts@.len() && (#[trigger] rest[k]).context@
                == context && (#[trigger] rest[k].interrupts@[j]).0@ == peripheral
                && rest[k].interrupts@[j].1@ == interrupt;
        let w_last = last.context@ == context && exists|j: int|
            0 <= j < last.interrupts@.len() && (#[trigger] last.interrupts@[j]).0@ == peripheral
                && last.interrupts@[j].1@ == interrupt;
        assert(w == (w_rest || w_last)) by {
            if w {
                let (k, j) = choose|k: int, j: int|
                    0 <= k < table.len() && 0 <= j < table[k].interrupts@.len() && (#[trigger] table[k]).context@
                        == context && (#[trigger] table[k].interrupts@[j]).0@ == peripheral
                        && table[k].interrupts@[j].1@ == interrupt;
                if k < rest.len() {
                    assert(rest[k] == table[k]);
                    assert(w_rest);
                } else {
                    assert(k == table.len() - 1);
                    assert(w_last);
                }
            }
            if w_rest {
                let (k, j) = choose|k: int, j: int|
                    0 <= k < rest.len() && 0 <= j < rest[k].interrupts@.len() && (#[trigger] rest[k]).context@
                        == context && (#[trigger] rest[k].interrupts@[j]).0@ == peripheral
                        && rest[k].interrupts@[j].1@ == interrupt;
                assert(rest[k] == table[k]);
                assert(table[k].interrupts@[j] == rest[k].interrupts@[j]);
            }
            if w_last {
                let j = choose|j: int|
                    0 <= j < last.interrupts@.len() && (#[trigger] last.interrupts@[j]).0@ == peripheral
                        && last.interrupts@[j].1@ == interrupt;
                let k = table.len() - 1;
                assert(table[k] == last);
                assert(table[k].interrupts@[j] == last.interrupts@[j]);
            }
        }
        match spec_interrupt_of(last.interrupts@, peripheral) {
            Some(v) => {
                assert(found == before.push((last.context@, v)));
                law_interrupt_lookup(last.interrupts@, peripheral, v);
                if found.contains((context, interrupt)) {
                    let n = choose|n: int| 0 <= n < found.len() && found[n] == (context, interrupt);
                    if n < before.len() {
                        assert(before[n] == found[n]);
                        assert(before.contains((context, interrupt)));
                    } else {
                        assert(w_last);
                    }
                }
                if w_rest {
                    let n = choose|n: int| 0 <= n < before.len() && before[n] == (context, interrupt);
                    assert(found[n] == before[n]);
                    assert(found.contains((context, interrupt)));
                }
                if w_last {
                    assert(v == interrupt);
                    assert(found[found.len() - 1] == (context, interrupt));
                    assert(found.contains((context, interrupt)));
                }
            },
            None => {
                assert(found == before);
                if w_last {
                    let j = choose|j: int|
                        0 <= j < last.interrupts@.len() && (#[trigger] last.interrupts@[j]).0@ == peripheral
                            && last.interrupts@[j].1@ == interrupt;
                    assert(last.interrupts@[j].0@ != peripheral);
                }
            },
        }
    }
}

} // verus!
