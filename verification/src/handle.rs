use vstd::prelude::*;

use crate::calls::NativeCall;
use crate::status::Failure;

verus! {

/// What an operation on a handle does to the native engine.
pub enum NativeEffect {
    /// The live native object is used again.
    Reuse(usize),
    /// A native object was created and is now live.
    Create(usize),
    /// The engine's constructor returned null; nothing is live.
    CreateFailed,
    /// The live native object is released.
    Destroy(usize),
    /// Nothing was live, so nothing happens.
    Nothing,
}

/// What is done to a handle.
pub enum LifecycleOp {
    /// An operation needs the native object; the constructor, where it is
    /// called, returns `raw`.
    Acquire(usize),
    /// The handle is closed.
    Release,
}

/// The live native object behind the raw value `h`, if any (zero is null).
pub open spec fn live_object(h: usize) -> Option<usize> {
    if h == 0 {
        None
    } else {
        Some(h)
    }
}

/// One step of a handle's life: the raw value afterwards and the effect on the engine.
pub open spec fn lifecycle_step(h: usize, op: LifecycleOp) -> (usize, NativeEffect) {
    match op {
        LifecycleOp::Acquire(raw) => if h != 0 {
            (h, NativeEffect::Reuse(h))
        } else if raw != 0 {
            (raw, NativeEffect::Create(raw))
        } else {
            (0, NativeEffect::CreateFailed)
        },
        LifecycleOp::Release => if h != 0 {
            (0, NativeEffect::Destroy(h))
        } else {
            (0, NativeEffect::Nothing)
        },
    }
}

/// What readying a handle's native object for an operation takes.
#[derive(Debug, PartialEq, Eq, Structural)]
pub enum AcquireStep {
    /// The live object, with this raw value, is used again; the engine is
    /// not asked for a new one.
    Reuse(usize),
    /// No object is live: the engine's constructor is to be called once,
    /// and its result handed to `Handle::install`.
    Create,
}

/// The step that readying a handle whose raw value is `h` takes.
pub open spec fn acquire_step(h: usize) -> AcquireStep {
    if h != 0 {
        AcquireStep::Reuse(h)
    } else {
        AcquireStep::Create
    }
}

/// A handle to an object of the native engine; zero stands for "no object".
pub struct Handle {
    raw: usize,
}

impl View for Handle {
    type V = usize;

    closed spec fn view(&self) -> usize {
        self.raw
    }
}

impl Handle {
    /// A handle with no native object behind it yet.
    pub fn none() -> (h: Handle)
        ensures
            h@ == 0,
    {
        Handle { raw: 0 }
    }

    /// The handle of an object that the native constructor `call` returned
    /// as `raw`; a null pointer is a failure of `call`.
    pub fn created(call: NativeCall, raw: usize) -> (r: Result<Handle, Failure>)
        ensures
            r is Ok <==> raw != 0,
            r matches Ok(h) ==> h@ == raw,
            r matches Err(f) ==> f@ == call,
    {
        if raw == 0 {
            Err(Failure::new(call))
        } else {
            Ok(Handle { raw })
        }
    }

    /// The raw value handed to the engine: the object's pointer, or null.
    pub fn raw(&self) -> (r: usize)
        ensures
            r == self@,
    {
        self.raw
    }

    fn live(&self) -> (r: Option<usize>)
        ensures
            r == live_object(self@),
    {
        if self.raw == 0 {
            None
        } else {
            Some(self.raw)
        }
    }

    /// What readying the native object for an operation takes: the live
    /// object is reused; only where none is live must the engine's
    /// constructor be called, once, its result then going to `install`.
    pub fn next_acquire(&self) -> (a: AcquireStep)
        ensures
            a == acquire_step(self@),
    {
        if self.raw == 0 {
            AcquireStep::Create
        } else {
            AcquireStep::Reuse(self.raw)
        }
    }

    /// Takes over the object that the native constructor `call` returned as
    /// `raw` for a handle that had none. A null pointer leaves the handle
    /// empty and is a failure of `call`.
    pub fn install(&mut self, call: NativeCall, raw: usize) -> (r: Result<usize, Failure>)
        requires
            old(self)@ == 0,
        ensures
            lifecycle_step(old(self)@, LifecycleOp::Acquire(raw)).0 == final(self)@,
            r is Ok <==> raw != 0,
            r matches Ok(h) ==> h == raw,
            r matches Err(f) ==> f@ == call,
    {
        if raw == 0 {
            Err(Failure::new(call))
        } else {
            self.raw = raw;
            Ok(raw)
        }
    }

    /// Closes the handle: hands back the live object, which the caller then
    /// releases in the engine, and leaves the handle empty. A handle that
    /// has no object hands back nothing.
    pub fn release(&mut self) -> (r: Option<usize>)
        ensures
            r == live_object(old(self)@),
            old(self)@ != 0 ==> r == Some(old(self)@),
            old(self)@ == 0 ==> r is None,
            final(self)@ == 0,
            lifecycle_step(old(self)@, LifecycleOp::Release).0 == final(self)@,
    {
        let r = self.live();
        self.raw = 0;
        r
    }
}

} // verus!

verus! {

/// Runs a sequence of operations on a handle that starts at `h`: the raw
/// value at the end and the effects on the engine, in order.
pub open spec fn run_lifecycle(h: usize, ops: Seq<LifecycleOp>) -> (usize, Seq<NativeEffect>)
    decreases ops.len(),
{
    if ops.len() == 0 {
        (h, Seq::empty())
    } else {
        let first = lifecycle_step(h, ops[0]);
        let rest = run_lifecycle(first.0, ops.drop_first());
        (rest.0, seq![first.1] + rest.1)
    }
}

/// The effects follow the engine's protocol from the state where `live` is
/// the live object (zero: none): an object is used or released only while
/// it is live, a new one is created only when none is live, and nothing
/// happens only when none is live.
pub open spec fn protocol_ok(live: usize, effects: Seq<NativeEffect>) -> bool
    decreases effects.len(),
{
    if effects.len() == 0 {
        true
    } else {
        let rest = effects.drop_first();
        match effects[0] {
            NativeEffect::Reuse(x) => live != 0 && x == live && protocol_ok(live, rest),
            NativeEffect::Create(x) => live == 0 && x != 0 && protocol_ok(x, rest),
            NativeEffect::CreateFailed => live == 0 && protocol_ok(0, rest),
            NativeEffect::Destroy(x) => live != 0 && x == live && protocol_ok(0, rest),
            NativeEffect::Nothing => live == 0 && protocol_ok(0, rest),
        }
    }
}

/// Whatever is done to a handle, the engine sees a sound protocol: no
/// object is released twice or used after it was released, and a new
/// object is created only where none is live.
pub proof fn lifecycle_keeps_protocol(h: usize, ops: Seq<LifecycleOp>)
    ensures
        protocol_ok(h, run_lifecycle(h, ops).1),
    decreases ops.len(),
{
    if ops.len() > 0 {
        let first = lifecycle_step(h, ops[0]);
        lifecycle_keeps_protocol(first.0, ops.drop_first());
        let rest = run_lifecycle(first.0, ops.drop_first());
        let effects = run_lifecycle(h, ops).1;
        assert(effects =~= seq![first.1] + rest.1);
        assert(effects.drop_first() =~= rest.1);
    }
}

/// Closing is idempotent: once a handle is closed, closing it again does
/// nothing.
pub proof fn close_is_idempotent(h: usize)
    ensures
        lifecycle_step(h, LifecycleOp::Release).0 == 0,
        lifecycle_step(lifecycle_step(h, LifecycleOp::Release).0, LifecycleOp::Release) == (
            0usize,
            NativeEffect::Nothing,
        ),
{
}

/// The steps the handle hands out follow the model: `Reuse` exactly where
/// the model reuses the live object, and `Create` exactly where the model
/// calls the constructor, whose result `install` then takes as the model
/// does.
pub proof fn acquire_steps_follow_model(h: usize, raw: usize)
    ensures
        acquire_step(h) == AcquireStep::Reuse(h) <==> lifecycle_step(h, LifecycleOp::Acquire(raw)).1
            == NativeEffect::Reuse(h),
        acquire_step(h) == AcquireStep::Create <==> h == 0,
        h == 0 ==> lifecycle_step(h, LifecycleOp::Acquire(raw)).1 == (if raw != 0 {
            NativeEffect::Create(raw)
        } else {
            NativeEffect::CreateFailed
        }),
{
}

/// A live object is reused, whatever the constructor would return: the
/// engine is asked for a new one only while none is live.
pub proof fn live_object_is_reused(h: usize, raw: usize)
    requires
        h != 0,
    ensures
        lifecycle_step(h, LifecycleOp::Acquire(raw)) == (h, NativeEffect::Reuse(h)),
{
}

} // verus!

verus! {

/// Closing hands back exactly the object the handle held, the full raw
/// value, and nothing where it held none; the model releases that same
/// object.
pub proof fn release_hands_back_the_live_object(h: usize)
    ensures
        h != 0 ==> live_object(h) == Some(h),
        h == 0 ==> live_object(h) is None,
        h != 0 ==> lifecycle_step(h, LifecycleOp::Release) == (0usize, NativeEffect::Destroy(h)),
{
}

} // verus!
