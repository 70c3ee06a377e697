use crate::error::OsError;
use crate::event::AbsAxis;
use crate::event::AbsEvent;
use crate::event::AbsInfo;
use crate::event::Event;
use crate::event::Key;
use crate::event::KeyEvent;
use crate::event::RawEventTriple;
use crate::event::RelAxis;
use crate::event::RelEvent;
use crate::event::BUS_VIRTUAL;
use crate::event::EV_ABS;
use crate::event::EV_KEY;
use crate::event::EV_REL;
use crate::event::EV_SYN;
use crate::event::ABS_MT_TOOL_TYPE;
use crate::event::SYN_MT_REPORT;
use vstd::prelude::*;

verus! {

/// The fixed mapping from a normalized event to the kernel triple it is
/// written as; `None` where the event's code or value has no kernel
/// counterpart, in which case the event is dropped silently.
pub open spec fn encode_spec(ev: Event) -> Option<RawEventTriple> {
    match ev {
        Event::Rel(RelEvent { axis, value }) => match axis.code_spec() {
            Some(code) => Some(RawEventTriple { class: EV_REL, code, value }),
            None => None,
        },
        Event::Abs(AbsEvent::Axis { axis, value }) => match axis.code_spec() {
            Some(code) => Some(RawEventTriple { class: EV_ABS, code, value }),
            None => None,
        },
        Event::Abs(AbsEvent::MtToolType { value }) => match value.value_spec() {
            Some(value) => Some(RawEventTriple { class: EV_ABS, code: ABS_MT_TOOL_TYPE, value }),
            None => None,
        },
        Event::Key(KeyEvent { down, key }) => match key.code_spec() {
            Some(code) => Some(
                RawEventTriple { class: EV_KEY, code, value: if down { 1int } else { 0int } as i32 },
            ),
            None => None,
        },
        Event::Sync(sync) => match sync.code_spec() {
            Some(code) => Some(RawEventTriple { class: EV_SYN, code, value: 0 }),
            None => None,
        },
    }
}

/// Encodes one normalized event as the kernel triple to write, or `None`
/// for an event the kernel vocabulary cannot express.
pub fn encode(event: &Event) -> (r: Option<RawEventTriple>)
    ensures
        r == encode_spec(*event),
{
    match event {
        Event::Rel(RelEvent { axis, value }) => match axis.to_raw() {
            Some(code) => Some(RawEventTriple { class: EV_REL, code, value: *value }),
            None => None,
        },
        Event::Abs(AbsEvent::Axis { axis, value }) => match axis.to_raw() {
            Some(code) => Some(RawEventTriple { class: EV_ABS, code, value: *value }),
            None => None,
        },
        Event::Abs(AbsEvent::MtToolType { value }) => match value.to_raw() {
            Some(value) => Some(RawEventTriple { class: EV_ABS, code: ABS_MT_TOOL_TYPE, value }),
            None => None,
        },
        Event::Key(KeyEvent { down, key }) => match key.to_raw() {
            Some(code) => Some(
                RawEventTriple { class: EV_KEY, code, value: if *down { 1 } else { 0 } },
            ),
            None => None,
        },
        Event::Sync(sync) => match sync.to_raw() {
            Some(code) => Some(RawEventTriple { class: EV_SYN, code, value: 0 }),
            None => None,
        },
    }
}

/// One capability registration the virtual device is created with: an event
/// class, a code, and, for an absolute axis, its range description.
#[derive(Clone, Copy, Debug, PartialEq, Eq)]
pub struct Registration {
    pub class: u16,
    pub code: u16,
    pub info: Option<AbsInfo>,
}

/// The multi-touch report sync capability that any absolute-axis
/// registration carries with it.
pub open spec fn mt_report_reg() -> Registration {
    Registration { class: EV_SYN, code: SYN_MT_REPORT, info: None }
}

/// The registrations one relative axis contributes: its code, or nothing if
/// the kernel has none.
pub open spec fn rel_reg_of(axis: RelAxis) -> Seq<Registration> {
    match axis.code_spec() {
        Some(code) => seq![Registration { class: EV_REL, code, info: None }],
        None => Seq::empty(),
    }
}

/// The registrations an ordered collection of relative axes contributes.
pub open spec fn rel_regs_spec(items: Seq<RelAxis>) -> Seq<Registration>
    decreases items.len(),
{
    if items.len() == 0 {
        Seq::empty()
    } else {
        rel_regs_spec(items.drop_last()) + rel_reg_of(items.last())
    }
}

/// The registrations one key contributes.
pub open spec fn key_reg_of(key: Key) -> Seq<Registration> {
    match key.code_spec() {
        Some(code) => seq![Registration { class: EV_KEY, code, info: None }],
        None => Seq::empty(),
    }
}

/// The registrations an ordered collection of keys contributes.
pub open spec fn key_regs_spec(items: Seq<Key>) -> Seq<Registration>
    decreases items.len(),
{
    if items.len() == 0 {
        Seq::empty()
    } else {
        key_regs_spec(items.drop_last()) + key_reg_of(items.last())
    }
}

/// The registrations one absolute axis with its range contributes.
pub open spec fn abs_reg_of(item: (AbsAxis, AbsInfo)) -> Seq<Registration> {
    match item.0.code_spec() {
        Some(code) => seq![Registration { class: EV_ABS, code, info: Some(item.1) }],
        None => Seq::empty(),
    }
}

/// The axis registrations an ordered collection of absolute axes
/// contributes, without the implied multi-touch report capability.
pub open spec fn abs_axis_regs_spec(items: Seq<(AbsAxis, AbsInfo)>) -> Seq<Registration>
    decreases items.len(),
{
    if items.len() == 0 {
        Seq::empty()
    } else {
        abs_axis_regs_spec(items.drop_last()) + abs_reg_of(items.last())
    }
}

/// Everything one absolute-axis registration call contributes: exactly one
/// multi-touch report capability, then the mapped axes in order.
pub open spec fn abs_regs_spec(items: Seq<(AbsAxis, AbsInfo)>) -> Seq<Registration> {
    seq![mt_report_reg()] + abs_axis_regs_spec(items)
}

/// Accumulates the identity and capability set a virtual device is created
/// with. The registrations are an ordered plan; applying them to the kernel
/// and creating the device happen outside, and [`WriterBuilder::build`]
/// takes the kernel's answer.
pub struct WriterBuilder {
    /// Display name of the synthetic device, as raw bytes.
    pub name: Vec<u8>,
    pub vendor: u16,
    pub product: u16,
    pub version: u16,
    /// Bus type; always the virtual bus.
    pub bustype: u16,
    /// The capability registrations accumulated so far, in order.
    pub regs: Vec<Registration>,
}

/// The kernel's answer to committing the accumulated descriptor.
#[derive(Clone, Debug, PartialEq, Eq)]
pub enum CommitOutcome {
    /// The virtual device exists; the kernel may or may not have exposed a
    /// device-node path for it.
    Created { node: Option<Vec<u8>> },
    /// Device creation failed.
    Failed { error: OsError },
}

impl WriterBuilder {
    /// Identity and capabilities other than the registrations, unchanged.
    pub open spec fn same_identity(self, other: WriterBuilder) -> bool {
        &&& self.name@ == other.name@
        &&& self.vendor == other.vendor
        &&& self.product == other.product
        &&& self.version == other.version
        &&& self.bustype == other.bustype
    }

    /// A fresh builder: no capabilities, zeroed identity, virtual bus.
    pub fn new() -> (b: WriterBuilder)
        ensures
            b.name@ == Seq::<u8>::empty(),
            b.vendor == 0,
            b.product == 0,
            b.version == 0,
            b.bustype == BUS_VIRTUAL,
            b.regs@ == Seq::<Registration>::empty(),
    {
        WriterBuilder {
            name: Vec::new(),
            vendor: 0,
            product: 0,
            version: 0,
            bustype: BUS_VIRTUAL,
            regs: Vec::new(),
        }
    }

    /// Sets the display name.
    pub fn name(self, value: Vec<u8>) -> (r: Self)
        ensures
            r.name@ == value@,
            r.vendor == self.vendor,
            r.product == self.product,
            r.version == self.version,
            r.bustype == self.bustype,
            r.regs@ == self.regs@,
    {
        let mut b = self;
        b.name = value;
        b
    }

    /// Sets the vendor identifier.
    pub fn vendor(self, value: u16) -> (r: Self)
        ensures
            r.vendor == value,
            r.name@ == self.name@,
            r.product == self.product,
            r.version == self.version,
            r.bustype == self.bustype,
            r.regs@ == self.regs@,
    {
        let mut b = self;
        b.vendor = value;
        b
    }

    /// Sets the product identifier.
    pub fn product(self, value: u16) -> (r: Self)
        ensures
            r.product == value,
            r.name@ == self.name@,
            r.vendor == self.vendor,
            r.version == self.version,
            r.bustype == self.bustype,
            r.regs@ == self.regs@,
    {
        let mut b = self;
        b.product = value;
        b
    }

    /// Sets the version identifier.
    pub fn version(self, value: u16) -> (r: Self)
        ensures
            r.version == value,
            r.name@ == self.name@,
            r.vendor == self.vendor,
            r.product == self.product,
            r.bustype == self.bustype,
            r.regs@ == self.regs@,
    {
        let mut b = self;
        b.version = value;
        b
    }

    /// Registers relative-axis capabilities, in order; identifiers the
    /// kernel has no code for are silently skipped.
    pub fn rel(self, items: &Vec<RelAxis>) -> (r: Self)
        ensures
            r.regs@ == self.regs@ + rel_regs_spec(items@),
            r.same_identity(self),
    {
        let ghost old_regs: Seq<Registration> = self.regs@;
        let mut b = self;
        let mut i: usize = 0;
        while i < items.len()
            invariant
                i <= items.len(),
                b.regs@ == old_regs + rel_regs_spec(items@.take(i as int)),
                b.same_identity(self),
            decreases items.len() - i,
        {
            proof {
                assert(items@.take(i + 1).drop_last() =~= items@.take(i as int));
                assert(items@.take(i + 1).last() == items@[i as int]);
            }
            match items[i].to_raw() {
                Some(code) => {
                    b.regs.push(Registration { class: EV_REL, code, info: None });
                },
                None => {},
            }
            proof {
                assert(b.regs@ =~= old_regs + rel_regs_spec(items@.take(i + 1)));
            }
            i = i + 1;
        }
        proof {
            assert(items@.take(items@.len() as int) =~= items@);
        }
        b
    }

    /// Registers key capabilities, in order; identifiers the kernel has no
    /// code for are silently skipped.
    pub fn key(self, items: &Vec<Key>) -> (r: Self)
        ensures
            r.regs@ == self.regs@ + key_regs_spec(items@),
            r.same_identity(self),
    {
        let ghost old_regs: Seq<Registration> = self.regs@;
        let mut b = self;
        let mut i: usize = 0;
        while i < items.len()
            invariant
                i <= items.len(),
                b.regs@ == old_regs + key_regs_spec(items@.take(i as int)),
                b.same_identity(self),
            decreases items.len() - i,
        {
            proof {
                assert(items@.take(i + 1).drop_last() =~= items@.take(i as int));
                assert(items@.take(i + 1).last() == items@[i as int]);
            }
            match items[i].to_raw() {
                Some(code) => {
                    b.regs.push(Registration { class: EV_KEY, code, info: None });
                },
                None => {},
            }
            proof {
                assert(b.regs@ =~= old_regs + key_regs_spec(items@.take(i + 1)));
            }
            i = i + 1;
        }
        proof {
            assert(items@.take(items@.len() as int) =~= items@);
        }
        b
    }

    /// Registers absolute-axis capabilities, in order. The call first
    /// registers the multi-touch report sync capability the kernel demands
    /// of any absolute-axis device — exactly once, however many axes
    /// follow — then each axis the kernel has a code for, with its range.
    pub fn abs(self, items: &Vec<(AbsAxis, AbsInfo)>) -> (r: Self)
        ensures
            r.regs@ == self.regs@ + abs_regs_spec(items@),
            r.same_identity(self),
    {
        let ghost old_regs: Seq<Registration> = self.regs@;
        let mut b = self;
        b.regs.push(Registration { class: EV_SYN, code: SYN_MT_REPORT, info: None });
        let ghost base: Seq<Registration> = old_regs + seq![mt_report_reg()];
        proof {
            assert(b.regs@ =~= base);
        }
        let mut i: usize = 0;
        while i < items.len()
            invariant
                i <= items.len(),
                b.regs@ == base + abs_axis_regs_spec(items@.take(i as int)),
                b.same_identity(self),
            decreases items.len() - i,
        {
            proof {
                assert(items@.take(i + 1).drop_last() =~= items@.take(i as int));
                assert(items@.take(i + 1).last() == items@[i as int]);
            }
            let item = items[i];
            match item.0.to_raw() {
                Some(code) => {
                    b.regs.push(Registration { class: EV_ABS, code, info: Some(item.1) });
                },
                None => {},
            }
            proof {
                assert(b.regs@ =~= base + abs_axis_regs_spec(items@.take(i + 1)));
            }
            i = i + 1;
        }
        proof {
            assert(items@.take(items@.len() as int) =~= items@);
            assert(base + abs_axis_regs_spec(items@) =~= old_regs + abs_regs_spec(items@));
        }
        b
    }

    /// Commits the descriptor: consumes the builder and turns the kernel's
    /// answer into the writer. A kernel failure is returned unchanged, and
    /// no virtual device exists then.
    pub fn build(self, outcome: CommitOutcome) -> (r: Result<Writer, OsError>)
        ensures
            outcome matches CommitOutcome::Failed { error } ==> r == Err::<Writer, OsError>(
                error,
            ),
            outcome matches CommitOutcome::Created { node } ==> (r matches Ok(w) && w.node == node
                && w.submitted@ == Seq::<RawEventTriple>::empty()),
    {
        match outcome {
            CommitOutcome::Created { node } => Ok(Writer { node, submitted: Vec::new() }),
            CommitOutcome::Failed { error } => Err(error),
        }
    }
}

/// The instantiated synthetic device: its kernel-assigned node path, if the
/// kernel exposed one, and the triples submitted to it so far, in order.
pub struct Writer {
    pub node: Option<Vec<u8>>,
    pub submitted: Vec<RawEventTriple>,
}

impl Writer {
    /// A fresh builder for a virtual device.
    pub fn builder() -> (b: WriterBuilder)
        ensures
            b.name@ == Seq::<u8>::empty(),
            b.vendor == 0,
            b.product == 0,
            b.version == 0,
            b.bustype == BUS_VIRTUAL,
            b.regs@ == Seq::<Registration>::empty(),
    {
        WriterBuilder::new()
    }

    /// Translates one normalized event into the kernel triple to write and
    /// records it as submitted; an event whose code or value is unmapped is
    /// dropped silently — no triple, no effect.
    pub fn write(&mut self, event: &Event) -> (r: Option<RawEventTriple>)
        ensures
            r == encode_spec(*event),
            final(self).node == old(self).node,
            match encode_spec(*event) {
                Some(t) => final(self).submitted@ == old(self).submitted@.push(t),
                None => final(self).submitted@ == old(self).submitted@,
            },
    {
        match encode(event) {
            Some(t) => {
                self.submitted.push(t);
                Some(t)
            },
            None => None,
        }
    }

    /// The virtual device's kernel-assigned node path, or nothing if the
    /// kernel did not expose one.
    pub fn path(&self) -> (r: &Option<Vec<u8>>)
        ensures
            *r == self.node,
    {
        &self.node
    }
}

/// A registration marks the multi-touch report sync capability.
pub open spec fn is_mt_report(r: Registration) -> bool {
    r.class == EV_SYN && r.code == SYN_MT_REPORT
}

/// How many of the registrations mark the multi-touch report capability.
pub open spec fn count_mt_report(regs: Seq<Registration>) -> nat
    decreases regs.len(),
{
    if regs.len() == 0 {
        0
    } else {
        count_mt_report(regs.drop_last()) + if is_mt_report(regs.last()) {
            1nat
        } else {
            0nat
        }
    }
}

/// Counting multi-touch report registrations distributes over
/// concatenation.
pub proof fn lemma_count_mt_report_add(a: Seq<Registration>, b: Seq<Registration>)
    ensures
        count_mt_report(a + b) == count_mt_report(a) + count_mt_report(b),
    decreases b.len(),
{
    if b.len() == 0 {
        assert(a + b =~= a);
    } else {
        lemma_count_mt_report_add(a, b.drop_last());
        assert((a + b).drop_last() =~= a + b.drop_last());
        assert((a + b).last() == b.last());
    }
}

/// Counting a single registration.
proof fn lemma_count_mt_report_singleton(r: Registration)
    ensures
        count_mt_report(seq![r]) == if is_mt_report(r) {
            1nat
        } else {
            0nat
        },
{
    assert(seq![r].drop_last() =~= Seq::<Registration>::empty());
    assert(count_mt_report(Seq::<Registration>::empty()) == 0);
    assert(seq![r].last() == r);
}

/// The axis registrations themselves never carry the multi-touch report
/// capability; only the one implied registration does.
pub proof fn lemma_abs_axis_regs_no_mt(items: Seq<(AbsAxis, AbsInfo)>)
    ensures
        count_mt_report(abs_axis_regs_spec(items)) == 0,
    decreases items.len(),
{
    if items.len() > 0 {
        lemma_abs_axis_regs_no_mt(items.drop_last());
        lemma_count_mt_report_add(abs_axis_regs_spec(items.drop_last()), abs_reg_of(items.last()));
        match items.last().0.code_spec() {
            Some(code) => {
                let reg = Registration { class: EV_ABS, code, info: Some(items.last().1) };
                lemma_count_mt_report_singleton(reg);
                assert(abs_reg_of(items.last()) == seq![reg]);
            },
            None => {
                assert(abs_reg_of(items.last()) =~= Seq::<Registration>::empty());
            },
        }
    }
}

/// Relative-axis registrations never carry the multi-touch report
/// capability.
pub proof fn lemma_rel_regs_no_mt(items: Seq<RelAxis>)
    ensures
        count_mt_report(rel_regs_spec(items)) == 0,
    decreases items.len(),
{
    if items.len() > 0 {
        lemma_rel_regs_no_mt(items.drop_last());
        lemma_count_mt_report_add(rel_regs_spec(items.drop_last()), rel_reg_of(items.last()));
        match items.last().code_spec() {
            Some(code) => {
                let reg = Registration { class: EV_REL, code, info: None };
                lemma_count_mt_report_singleton(reg);
                assert(rel_reg_of(items.last()) == seq![reg]);
            },
            None => {
                assert(rel_reg_of(items.last()) =~= Seq::<Registration>::empty());
            },
        }
    }
}

/// Key registrations never carry the multi-touch report capability.
pub proof fn lemma_key_regs_no_mt(items: Seq<Key>)
    ensures
        count_mt_report(key_regs_spec(items)) == 0,
    decreases items.len(),
{
    if items.len() > 0 {
        lemma_key_regs_no_mt(items.drop_last());
        lemma_count_mt_report_add(key_regs_spec(items.drop_last()), key_reg_of(items.last()));
        match items.last().code_spec() {
            Some(code) => {
                let reg = Registration { class: EV_KEY, code, info: None };
                lemma_count_mt_report_singleton(reg);
                assert(key_reg_of(items.last()) == seq![reg]);
            },
            None => {
                assert(key_reg_of(items.last()) =~= Seq::<Registration>::empty());
            },
        }
    }
}

/// One absolute-axis registration call registers the multi-touch report
/// sync capability exactly once, however many axes it declares — zero, one,
/// or many, mapped or not.
pub proof fn lemma_abs_mt_report_once(regs: Seq<Registration>, items: Seq<(AbsAxis, AbsInfo)>)
    ensures
        count_mt_report(regs + abs_regs_spec(items)) == count_mt_report(regs) + 1,
{
    lemma_count_mt_report_add(regs, abs_regs_spec(items));
    lemma_count_mt_report_add(seq![mt_report_reg()], abs_axis_regs_spec(items));
    lemma_abs_axis_regs_no_mt(items);
    lemma_count_mt_report_singleton(mt_report_reg());
}

/// The kernel's return code for each capability registration, applied in
/// order, mapped the way the builder surfaces them: the first negative
/// return code becomes the fatal error, as the OS error it names;
/// registrations before it stand, nothing is rolled back.
pub fn registration_result(verdicts: &Vec<i32>) -> (r: Result<(), OsError>)
    requires
        forall|i: int| 0 <= i < verdicts@.len() ==> verdicts@[i] != i32::MIN,
    ensures
        match r {
            Ok(_) => forall|i: int| 0 <= i < verdicts@.len() ==> verdicts@[i] >= 0,
            Err(e) => exists|i: int|
                0 <= i < verdicts@.len() && verdicts@[i] < 0 && e.code == -verdicts@[i] && (
                forall|j: int| 0 <= j < i ==> verdicts@[j] >= 0),
        },
{
    let mut i: usize = 0;
    while i < verdicts.len()
        invariant
            i <= verdicts.len(),
            forall|j: int| 0 <= j < i ==> verdicts@[j] >= 0,
            forall|k: int| 0 <= k < verdicts@.len() ==> verdicts@[k] != i32::MIN,
        decreases verdicts.len() - i,
    {
        let v = verdicts[i];
        if v < 0 {
            let e = OsError { code: -v };
            proof {
                let w = i as int;
                assert(0 <= w < verdicts@.len() && verdicts@[w] < 0 && e.code == -verdicts@[w] && (
                forall|j: int| 0 <= j < w ==> verdicts@[j] >= 0));
            }
            return Err(e);
        }
        i = i + 1;
    }
    Ok(())
}

/// One attempt to push a triple into the kernel device, as the non-blocking
/// write reports it.
#[derive(Clone, Copy, Debug, PartialEq, Eq)]
pub enum WriteAttempt {
    /// The triple went through.
    Written,
    /// The device is momentarily not ready; a transient readiness race, not
    /// a real error.
    WouldBlock,
    /// A real failure.
    Failed { error: OsError },
}

/// What one attempt obliges the retry loop to do.
#[derive(Clone, Copy, Debug, PartialEq, Eq)]
pub enum WriteDecision {
    /// The write is done; surface success.
    Done,
    /// Re-suspend until the device reports itself writable, then retry.
    Retry,
    /// Surface this error immediately.
    Fail { error: OsError },
}

/// How a finite run of attempts resolves.
#[derive(Clone, Copy, Debug, PartialEq, Eq)]
pub enum WriteResolution {
    /// The write succeeded after this many would-block retries; exactly one
    /// attempt went through and no error surfaced.
    Completed { retries: usize },
    /// A real failure surfaced; no attempt after it was made.
    Faulted { error: OsError },
    /// Every attempt so far would block; the loop is still waiting.
    StillBlocked,
}

/// Index of the first attempt that is not a would-block report, if any.
pub open spec fn first_decisive(attempts: Seq<WriteAttempt>) -> Option<int>
    decreases attempts.len(),
{
    if attempts.len() == 0 {
        None
    } else if !(attempts[0] is WouldBlock) {
        Some(0)
    } else {
        match first_decisive(attempts.drop_first()) {
            Some(i) => Some(i + 1),
            None => None,
        }
    }
}

/// Where every attempt before `i` would block and attempt `i` would not,
/// `i` is the first decisive attempt.
pub proof fn lemma_first_decisive_found(attempts: Seq<WriteAttempt>, i: int)
    requires
        0 <= i < attempts.len(),
        forall|j: int| 0 <= j < i ==> attempts[j] is WouldBlock,
        !(attempts[i] is WouldBlock),
    ensures
        first_decisive(attempts) == Some(i),
    decreases i,
{
    if i > 0 {
        lemma_first_decisive_found(attempts.drop_first(), i - 1);
    }
}

/// Where every attempt would block, there is no decisive attempt.
pub proof fn lemma_first_decisive_none(attempts: Seq<WriteAttempt>)
    requires
        forall|j: int| 0 <= j < attempts.len() ==> attempts[j] is WouldBlock,
    ensures
        first_decisive(attempts) is None,
    decreases attempts.len(),
{
    if attempts.len() > 0 {
        lemma_first_decisive_none(attempts.drop_first());
    }
}

/// The decision the retry loop takes on one attempt: would-block is
/// retried invisibly, success and real failure surface at once.
pub fn write_step(attempt: &WriteAttempt) -> (r: WriteDecision)
    ensures
        r == (match *attempt {
            WriteAttempt::Written => WriteDecision::Done,
            WriteAttempt::WouldBlock => WriteDecision::Retry,
            WriteAttempt::Failed { error } => WriteDecision::Fail { error },
        }),
{
    match attempt {
        WriteAttempt::Written => WriteDecision::Done,
        WriteAttempt::WouldBlock => WriteDecision::Retry,
        WriteAttempt::Failed { error } => WriteDecision::Fail { error: *error },
    }
}

/// Runs the retry protocol over a finite run of attempt reports, in order:
/// would-block reports are absorbed, the first success completes the write,
/// the first real failure surfaces as the error, and attempts past the
/// first decisive one are never consumed.
pub fn resolve_write(attempts: &Vec<WriteAttempt>) -> (r: WriteResolution)
    ensures
        match first_decisive(attempts@) {
            None => r == WriteResolution::StillBlocked,
            Some(i) => match attempts@[i] {
                WriteAttempt::Written => r matches WriteResolution::Completed { retries }
                    && retries == i,
                WriteAttempt::Failed { error } => r == (WriteResolution::Faulted { error }),
                WriteAttempt::WouldBlock => true,
            },
        },
{
    let mut i: usize = 0;
    while i < attempts.len()
        invariant
            i <= attempts.len(),
            forall|j: int| 0 <= j < i ==> attempts@[j] is WouldBlock,
        decreases attempts.len() - i,
    {
        match attempts[i] {
            WriteAttempt::WouldBlock => {
                i = i + 1;
            },
            WriteAttempt::Written => {
                proof {
                    lemma_first_decisive_found(attempts@, i as int);
                }
                return WriteResolution::Completed { retries: i };
            },
            WriteAttempt::Failed { error } => {
                proof {
                    lemma_first_decisive_found(attempts@, i as int);
                }
                return WriteResolution::Faulted { error };
            },
        }
    }
    proof {
        lemma_first_decisive_none(attempts@);
    }
    WriteResolution::StillBlocked
}

/// The retry loop under a "would block, then succeed" run: with attempts
/// `0..k` reporting would-block and attempt `k` going through, the first
/// decisive attempt is the successful one — so by [`resolve_write`]'s
/// contract the loop completes after exactly `k` retries, exactly one
/// underlying write goes through, and no error surfaces.
pub proof fn lemma_would_block_then_success(attempts: Seq<WriteAttempt>, k: int)
    requires
        0 <= k < attempts.len(),
        forall|j: int| 0 <= j < k ==> attempts[j] is WouldBlock,
        attempts[k] is Written,
    ensures
        first_decisive(attempts) == Some(k),
{
    lemma_first_decisive_found(attempts, k);
}

} // verus!

