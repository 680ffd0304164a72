//! Finding the real function behind a hook. An address of 0 is null: the
//! dynamic linker knows no such symbol.

use vstd::prelude::*;

verus! {

/// What to do to get at the address of a symbol.
#[derive(Clone, Copy, Debug, PartialEq, Eq, Structural)]
pub enum Resolve {
    /// Use this address.
    Address(usize),
    /// Ask the dynamic linker.
    Ask,
}

/// The first step of [`resolve`]: a known address is used, else the linker is
/// asked.
pub open spec fn first_resolve(slot: usize) -> Resolve {
    if slot != 0 {
        Resolve::Address(slot)
    } else {
        Resolve::Ask
    }
}

/// Resolve a symbol once and cache it. Null is not cached, so a missing symbol
/// is retried.
///
/// Without an `answer` this is the first step; after [`Resolve::Ask`] it is
/// called again with what the linker answered.
pub fn resolve(slot: &mut usize, answer: Option<usize>) -> (step: Resolve)
    ensures
        answer is None ==> step == first_resolve(*old(slot)) && *final(slot) == *old(slot),
        answer matches Some(addr) ==> step == Resolve::Address(addr) && *final(slot) == addr,
{
    match answer {
        None => if *slot != 0 {
            Resolve::Address(*slot)
        } else {
            Resolve::Ask
        },
        Some(addr) => {
            *slot = addr;
            Resolve::Address(addr)
        },
    }
}

/// The first step of [`resolve_once`]: whatever the linker once answered is
/// used, a missing symbol included.
pub open spec fn first_resolve_once(slot: Option<usize>) -> Resolve {
    match slot {
        Some(addr) => Resolve::Address(addr),
        None => Resolve::Ask,
    }
}

/// Resolve a symbol once and keep the answer, null included.
///
/// Without an `answer` this is the first step; after [`Resolve::Ask`] it is
/// called again with what the linker answered. An answer that was kept before
/// stays.
pub fn resolve_once(slot: &mut Option<usize>, answer: Option<usize>) -> (step: Resolve)
    ensures
        answer is None ==> step == first_resolve_once(*old(slot)) && *final(slot) == *old(slot),
        answer matches Some(addr) ==> *final(slot) == Some(
            match *old(slot) {
                Some(kept) => kept,
                None => addr,
            },
        ) && step == first_resolve_once(*final(slot)),
{
    if let Some(addr) = answer {
        if slot.is_none() {
            *slot = Some(addr);
        }
    }
    match *slot {
        Some(addr) => Resolve::Address(addr),
        None => Resolve::Ask,
    }
}

/// The slot after one resolution, by a linker that answers `answer` if it is
/// asked.
pub open spec fn slot_after(slot: usize, answer: usize) -> usize {
    match first_resolve(slot) {
        Resolve::Address(_) => slot,
        Resolve::Ask => answer,
    }
}

/// The slot after a resolution for each of `answers`, which says what the
/// linker would answer at the time.
pub open spec fn slot_after_all(slot: usize, answers: Seq<usize>) -> usize
    decreases answers.len(),
{
    if answers.len() == 0 {
        slot
    } else {
        slot_after(slot_after_all(slot, answers.drop_last()), answers.last())
    }
}

/// The slot of [`resolve_once`] after one resolution.
pub open spec fn once_slot_after(slot: Option<usize>, answer: usize) -> Option<usize> {
    match first_resolve_once(slot) {
        Resolve::Address(_) => slot,
        Resolve::Ask => Some(answer),
    }
}

/// The slot of [`resolve_once`] after a resolution for each of `answers`.
pub open spec fn once_slot_after_all(slot: Option<usize>, answers: Seq<usize>) -> Option<usize>
    decreases answers.len(),
{
    if answers.len() == 0 {
        slot
    } else {
        once_slot_after(once_slot_after_all(slot, answers.drop_last()), answers.last())
    }
}

/// As long as a symbol is missing, every resolution asks for it again.
pub proof fn law_missing_symbol_is_retried(answers: Seq<usize>)
    requires
        forall|i: int| 0 <= i < answers.len() ==> answers[i] == 0,
    ensures
        first_resolve(slot_after_all(0, answers)) == Resolve::Ask,
    decreases answers.len(),
{
    if answers.len() > 0 {
        law_missing_symbol_is_retried(answers.drop_last());
    }
}

/// A symbol that was found is never asked for again, whatever the linker would
/// answer later.
pub proof fn law_found_symbol_is_kept(addr: usize, answers: Seq<usize>)
    requires
        addr != 0,
    ensures
        first_resolve(slot_after_all(addr, answers)) == Resolve::Address(addr),
    decreases answers.len(),
{
    if answers.len() > 0 {
        law_found_symbol_is_kept(addr, answers.drop_last());
    }
}

/// The `shm` hooks ask once: the first answer is used ever after, a missing
/// symbol included.
pub proof fn law_shm_symbol_is_asked_for_once(answers: Seq<usize>)
    requires
        answers.len() > 0,
    ensures
        first_resolve_once(once_slot_after_all(None, answers)) == Resolve::Address(answers[0]),
    decreases answers.len(),
{
    if answers.len() > 1 {
        law_shm_symbol_is_asked_for_once(answers.drop_last());
    } else {
        assert(once_slot_after_all(None, answers.drop_last()) is None);
    }
}

/// What [`resolve`] does to its slot and returns, in both of its steps.
pub proof fn law_resolve_uses_the_slot(
    slot: &mut usize,
    first: Resolve,
    asked: &mut usize,
    addr: usize,
    second: Resolve,
)
    requires
        call_ensures(resolve, (slot, None::<usize>), first),
        call_ensures(resolve, (asked, Some(addr)), second),
    ensures
        *final(slot) == *old(slot),
        *old(slot) == 0 <==> first == Resolve::Ask,
        *old(slot) != 0 ==> first == Resolve::Address(*old(slot)),
        *final(asked) == addr,
        second == Resolve::Address(addr),
{
}

/// What [`resolve_once`] does to its slot and returns, in both of its steps: an
/// answer that is already kept, null included, is never replaced.
pub proof fn law_resolve_once_keeps_the_first_answer(
    slot: &mut Option<usize>,
    first: Resolve,
    asked: &mut Option<usize>,
    addr: usize,
    second: Resolve,
)
    requires
        call_ensures(resolve_once, (slot, None::<usize>), first),
        call_ensures(resolve_once, (asked, Some(addr)), second),
    ensures
        *final(slot) == *old(slot),
        *old(slot) is None <==> first == Resolve::Ask,
        *old(slot) matches Some(kept) ==> first == Resolve::Address(kept),
        *old(asked) is None ==> *final(asked) == Some(addr) && second == Resolve::Address(addr),
        *old(asked) matches Some(kept) ==> *final(asked) == Some(kept) && second
            == Resolve::Address(kept),
{
}

} // verus!
