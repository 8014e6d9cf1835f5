use vstd::prelude::*;
use crate::error::{Error, ErrorKind};
use crate::section::{code_offset_of, code_section_offset};
use crate::frame::{FrameLookup, FrameRecord, frame_outcome, reports};

verus! {

/// The slot that holds the one debug-info context lookups are made in. It is
/// empty until an initialization succeeds, and each later success replaces the
/// context whole; a failed initialization leaves it as it was.
pub struct ContextSlot<C> {
    current: Option<C>,
}

/// What the parse-and-build part of an initialization comes to: the code
/// section's offset with the context built from the debug info, or the error
/// that stopped it.
pub open spec fn prepared<C>(offset: usize, built: Result<C, Error>) -> Result<(usize, C), Error> {
    match built {
        Ok(c) => Ok((offset, c)),
        Err(e) => Err(e),
    }
}

/// The failure of an initialization whose container gives no usable code
/// section offset.
pub open spec fn offset_failure<C>(range: Option<(u64, u64)>, r: Result<(usize, C), Error>) -> bool {
    &&& r is Err
    &&& range is None ==> (r matches Err(e) && e.kind == ErrorKind::NotFound
        && e.message@ == "Code section not found"@)
    &&& range is Some ==> (r matches Err(e) && e.kind == ErrorKind::ParseError)
}

/// The slot's content after an initialization that came to `p`.
pub open spec fn installed<C>(prev: Option<C>, p: Result<(usize, C), Error>) -> Option<C> {
    match p {
        Ok((_, c)) => Some(c),
        Err(_) => prev,
    }
}

/// The slot's content after a run of initializations, oldest first.
pub open spec fn installed_all<C>(prev: Option<C>, ps: Seq<Result<(usize, C), Error>>) -> Option<C>
    decreases ps.len(),
{
    if ps.len() == 0 {
        prev
    } else {
        installed(installed_all(prev, ps.drop_last()), ps.last())
    }
}

/// `r` is the outcome of resolving an address while the slot holds `ctx`,
/// where `found` is what the lookup in that context came to.
pub open spec fn resolution<C>(ctx: Option<C>, found: FrameLookup, r: Result<FrameRecord, Error>) -> bool {
    match ctx {
        None => r matches Err(e) && e.kind == ErrorKind::NotFound
            && e.message@ == "Context not found"@,
        Some(_) => reports(found, r),
    }
}

impl<C> View for ContextSlot<C> {
    type V = Option<C>;

    closed spec fn view(&self) -> Option<C> {
        self.current
    }
}

impl<C> ContextSlot<C> {
    /// A slot that no initialization has filled yet.
    pub fn new() -> (r: ContextSlot<C>)
        ensures
            r@ is None,
    {
        ContextSlot { current: None }
    }

    /// The context that lookups are made in, if one was built.
    pub fn current(&self) -> (r: Option<&C>)
        ensures
            r == match self@ {
                Some(c) => Some(&c),
                None => None::<&C>,
            },
    {
        match &self.current {
            Some(c) => Some(c),
            None => None,
        }
    }

    /// Ends an initialization: a context that was built replaces the old
    /// one and the code section's offset is returned; a failure is returned
    /// as it is and the old context stays.
    pub fn finish_initialize(&mut self, p: Result<(usize, C), Error>) -> (r: Result<usize, Error>)
        ensures
            final(self)@ == installed(old(self)@, p),
            p matches Ok((o, _)) ==> r == Ok::<usize, Error>(o),
            p matches Err(e) ==> r == Err::<usize, Error>(e),
    {
        match p {
            Ok((o, c)) => {
                self.current = Some(c);
                Ok(o)
            },
            Err(e) => Err(e),
        }
    }

    /// Resolves one address: fails with `NotFound` while no context was
    /// built, and otherwise reports what `lookup` finds in the context.
    pub fn resolve<F: Fn(&C) -> FrameLookup>(&self, lookup: F) -> (r: Result<FrameRecord, Error>)
        requires
            self@ matches Some(c) ==> lookup.requires((&c,)),
        ensures
            self@ is None ==> (r matches Err(e) && e.kind == ErrorKind::NotFound
                && e.message@ == "Context not found"@),
            self@ matches Some(c) ==> exists|found: FrameLookup|
                #![trigger lookup.ensures((&c,), found)]
                lookup.ensures((&c,), found) && resolution(self@, found, r),
    {
        match &self.current {
            Some(c) => {
                let found = lookup(c);
                frame_outcome(found)
            },
            None => Err(Error::new(ErrorKind::NotFound, "Context not found")),
        }
    }
}

/// The parse-and-build part of an initialization, which runs before the slot
/// is touched: finds the code section's offset from its file range, and only
/// then calls `build` for the debug-info context.
pub fn prepare<C, B: FnOnce() -> Result<C, Error>>(code_range: Option<(u64, u64)>, build: B) -> (r:
    Result<(usize, C), Error>)
    requires
        code_offset_of(code_range) is Some ==> build.requires(()),
    ensures
        code_offset_of(code_range) is None ==> offset_failure(code_range, r),
        code_offset_of(code_range) matches Some(o) ==> exists|built: Result<C, Error>|
            #![trigger build.ensures((), built)]
            build.ensures((), built) && r == prepared(o, built),
{
    match code_section_offset(code_range) {
        Ok(o) => {
            let built = build();
            match built {
                Ok(c) => Ok((o, c)),
                Err(e) => Err(e),
            }
        },
        Err(e) => Err(e),
    }
}

/// An initialization of a container without a code section fails with
/// `NotFound`, and the slot keeps the context it held before.
pub proof fn lemma_missing_code_section_keeps_context<C>(prev: Option<C>, r: Result<(usize, C), Error>)
    requires
        offset_failure(None, r),
    ensures
        r matches Err(e) && e.kind == ErrorKind::NotFound,
        installed(prev, r) == prev,
{
}

/// An initialization whose context could not be built (a compressed or
/// malformed debug section among the causes) fails with that error, and the
/// slot keeps the context it held before: nothing of the new one is installed.
pub proof fn lemma_failed_build_keeps_context<C>(prev: Option<C>, offset: usize, e: Error)
    ensures
        prepared::<C>(offset, Err(e)) == Err::<(usize, C), Error>(e),
        installed(prev, prepared::<C>(offset, Err(e))) == prev,
{
}

/// Until an initialization succeeds, every resolution fails with `NotFound`.
pub proof fn lemma_resolve_before_initialize<C>(
    ps: Seq<Result<(usize, C), Error>>,
    found: FrameLookup,
    r: Result<FrameRecord, Error>,
)
    requires
        forall|i: int| 0 <= i < ps.len() ==> (#[trigger] ps[i]) is Err,
        resolution(installed_all(None::<C>, ps), found, r),
    ensures
        r matches Err(e) && e.kind == ErrorKind::NotFound,
{
    lemma_failures_keep_slot(None::<C>, ps);
}

/// Two resolutions against the same context whose lookups found the same
/// thing report the same frame or the same error: a resolution depends on
/// nothing but the context and what was found in it.
pub proof fn lemma_resolutions_agree<C>(
    ctx: Option<C>,
    found: FrameLookup,
    r1: Result<FrameRecord, Error>,
    r2: Result<FrameRecord, Error>,
)
    requires
        resolution(ctx, found, r1),
        resolution(ctx, found, r2),
    ensures
        r1 is Ok <==> r2 is Ok,
        r1 matches Ok(a) ==> (r2 matches Ok(b) && a.symbol@ == b.symbol@ && a.location@
            == b.location@ && a.line == b.line && a.column == b.column),
        r1 matches Err(a) ==> (r2 matches Err(b) && a.kind == b.kind && a.message@
            == b.message@),
{
}

/// A run of failed initializations leaves the slot as it was.
proof fn lemma_failures_keep_slot<C>(prev: Option<C>, ps: Seq<Result<(usize, C), Error>>)
    requires
        forall|i: int| 0 <= i < ps.len() ==> (#[trigger] ps[i]) is Err,
    ensures
        installed_all(prev, ps) == prev,
    decreases ps.len(),
{
    if ps.len() > 0 {
        assert(ps.last() == ps[ps.len() - 1]);
        lemma_failures_keep_slot(prev, ps.drop_last());
    }
}

/// The integer that initialization hands the host: the code-section offset,
/// or `-2` where initialization failed (the error has been reported by then).
pub fn status_code(r: &Result<usize, Error>) -> (code: i32)
    ensures
        code == match r {
            Ok(o) => if *o <= i32::MAX {
                *o as i32
            } else {
                -2i32
            },
            Err(_) => -2i32,
        },
{
    match r {
        Ok(o) => if *o <= 0x7fff_ffff {
            *o as i32
        } else {
            -2
        },
        Err(_) => -2,
    }
}

} // verus!
