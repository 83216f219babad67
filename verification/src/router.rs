//! Explicit instruction routing.
//!
//! Programs use `InstructionRouter` to map instruction discriminants to
//! handlers. The router is built explicitly: no hidden dispatch.

use vstd::prelude::*;
use crate::account::AccountWithMetadata;
use crate::error::{SdkError, SdkResult};

verus! {

/// An instruction handler: what a program runs for one instruction.
pub trait InstructionHandler {
    /// Whether `result` is what this handler answers for `accounts` and
    /// the instruction bytes `data`.
    spec fn handles(&self, accounts: Seq<AccountWithMetadata>, data: Seq<u8>, result: SdkResult) -> bool;

    /// Runs the handler on the given accounts and instruction bytes.
    fn handle(&self, accounts: Vec<AccountWithMetadata>, data: &[u8]) -> (result: SdkResult)
        ensures
            self.handles(accounts@, data@, result),
    ;
}

/// The handler that a routing table gives for `discriminant`: the one of
/// the first entry registered under it, if any.
pub open spec fn route<H>(table: Seq<(u32, H)>, discriminant: u32) -> Option<H>
    decreases table.len(),
{
    if table.len() == 0 {
        None
    } else if table[0].0 == discriminant {
        Some(table[0].1)
    } else {
        route(table.drop_first(), discriminant)
    }
}

/// If no entry before `i` is registered under `d`, and entry `i` is, the
/// route of `d` is the handler of entry `i`; if no entry at all is, there
/// is no route.
proof fn lemma_route_first_match<H>(table: Seq<(u32, H)>, d: u32, i: int)
    requires
        0 <= i <= table.len(),
        forall|j: int| 0 <= j < i ==> table[j].0 != d,
        i < table.len() ==> table[i].0 == d,
    ensures
        i < table.len() ==> route(table, d) == Some(table[i].1),
        i == table.len() ==> route(table, d) is None,
    decreases i,
{
    if i > 0 {
        lemma_route_first_match(table.drop_first(), d, i - 1);
    }
}

/// Routing a table with one more entry at its end: the new entry is reached
/// only by its own discriminant, and only where no earlier entry has it.
pub proof fn lemma_route_push<H>(table: Seq<(u32, H)>, d: u32, h: H, other: u32)
    ensures
        route(table.push((d, h)), other) == if route(table, other) is Some || other != d {
            route(table, other)
        } else {
            Some(h)
        },
    decreases table.len(),
{
    if table.len() > 0 {
        assert(table.push((d, h)).drop_first() =~= table.drop_first().push((d, h)));
        lemma_route_push(table.drop_first(), d, h, other);
    } else {
        assert(table.push((d, h)).drop_first() =~= Seq::<(u32, H)>::empty());
        assert(route(Seq::<(u32, H)>::empty(), other) is None);
        assert(route(table, other) is None);
    }
}

/// A table with no entries routes no discriminant.
pub proof fn lemma_empty_table_routes_nothing<H>(d: u32)
    ensures
        route(Seq::<(u32, H)>::empty(), d) is None,
{
}

/// A table routes a discriminant only to a handler registered under it.
pub proof fn lemma_route_registered<H>(table: Seq<(u32, H)>, d: u32)
    ensures
        route(table, d) matches Some(h) ==> exists|i: int| 0 <= i < table.len() && table[i] == (d, h),
    decreases table.len(),
{
    if table.len() > 0 && table[0].0 != d {
        lemma_route_registered(table.drop_first(), d);
        if route(table, d) is Some {
            let i = choose|i: int| 0 <= i < table.drop_first().len() && table.drop_first()[i] == (d, route(table, d)->0);
            assert(table[i + 1] == (d, route(table, d)->0));
        }
    }
}

/// Explicit instruction router: maps `u32` discriminants to handlers.
pub struct InstructionRouter<H> {
    handlers: Vec<(u32, H)>,
}

impl<H> View for InstructionRouter<H> {
    type V = Seq<(u32, H)>;

    /// The routing table, in the order of registration.
    closed spec fn view(&self) -> Seq<(u32, H)> {
        self.handlers@
    }
}

impl<H: InstructionHandler> InstructionRouter<H> {
    /// Creates a new empty router.
    pub fn new() -> (router: Self)
        ensures
            router@ == Seq::<(u32, H)>::empty(),
    {
        InstructionRouter { handlers: Vec::new() }
    }

    /// Registers a handler for a given discriminant.
    pub fn register(self, discriminant: u32, handler: H) -> (router: Self)
        ensures
            router@ == self@.push((discriminant, handler)),
    {
        let mut handlers = self.handlers;
        handlers.push((discriminant, handler));
        InstructionRouter { handlers }
    }

    /// Dispatches an instruction to the handler registered first for its
    /// discriminant; with none registered, the answer is
    /// `SdkError::UnknownInstruction(discriminant)`.
    pub fn dispatch(&self, discriminant: u32, accounts: Vec<AccountWithMetadata>, data: &[u8]) -> (result: SdkResult)
        ensures
            match route(self@, discriminant) {
                Some(h) => h.handles(accounts@, data@, result),
                None => result matches Err(SdkError::UnknownInstruction(d)) && d == discriminant,
            },
    {
        let n = self.handlers.len();
        let mut i: usize = 0;
        while i < n
            invariant
                n == self.handlers@.len(),
                i <= n,
                forall|j: int| 0 <= j < i ==> self.handlers@[j].0 != discriminant,
            decreases n - i,
        {
            let entry = &self.handlers[i];
            if entry.0 == discriminant {
                proof {
                    lemma_route_first_match(self.handlers@, discriminant, i as int);
                }
                return entry.1.handle(accounts, data);
            }
            i = i + 1;
        }
        proof {
            lemma_route_first_match(self.handlers@, discriminant, i as int);
        }
        Err(SdkError::UnknownInstruction(discriminant))
    }
}

impl<H: InstructionHandler> Default for InstructionRouter<H> {
    fn default() -> (router: Self)
        ensures
            router@ == Seq::<(u32, H)>::empty(),
    {
        Self::new()
    }
}

} // verus!
