//! Device group: the ordered set of discovered SubDevices, their shared
//! process-data image, and the lifecycle state machine
//! Init -> PreOp -> SafeOp -> Op (with a terminal Faulted state for a
//! group whose cyclic exchange has repeatedly failed).
//!
//! Every operation is specified against `GroupModel`, the mathematical
//! view of a group, so that the state-machine laws can be stated and
//! proved over the model alone.

use vstd::prelude::*;

verus! {

/// Identity words read from a device during discovery.
#[derive(Clone, Copy, Debug, PartialEq, Eq, Structural)]
pub struct Identity {
    pub vendor: u32,
    pub product: u32,
    pub revision: u32,
}

/// Lifecycle states of a device group, in strict forward order.
#[derive(Clone, Copy, Debug, PartialEq, Eq, Structural)]
pub enum GroupState {
    /// Devices enumerated, nothing configured yet.
    Init,
    /// Mailbox communication available.
    PreOp,
    /// Inputs valid; outputs held at safe (zero) values.
    SafeOp,
    /// Full cyclic exchange active.
    Op,
    /// Cyclic communication lost for good; outputs are no longer driven.
    Faulted,
}

/// Position of a state in the forward order of the lifecycle.
pub open spec fn state_rank(s: GroupState) -> int {
    match s {
        GroupState::Init => 0,
        GroupState::PreOp => 1,
        GroupState::SafeOp => 2,
        GroupState::Op => 3,
        GroupState::Faulted => 4,
    }
}

/// One discovered field device and its byte windows within the group's
/// process-data image. Identity is immutable after discovery; only the
/// image bytes behind the windows change during cyclic exchange.
pub struct SubDevice {
    /// Address assigned in discovery order; unique within the group.
    pub configured_address: u16,
    /// Human-readable name read over the mailbox.
    pub name: String,
    /// Vendor/product/revision words.
    pub identity: Identity,
    /// Byte offset of this device's window in the input image.
    pub input_offset: usize,
    /// Declared width of the input window.
    pub input_len: usize,
    /// Byte offset of this device's window in the output image.
    pub output_offset: usize,
    /// Declared width of the output window.
    pub output_len: usize,
    /// Whether the device's mailbox parameters were accepted.
    pub mailbox_ok: bool,
    /// Input width the device itself reports.
    pub reported_input_len: usize,
    /// Output width the device itself reports.
    pub reported_output_len: usize,
}

/// Error returned by a lifecycle transition.
#[derive(Clone, Copy, Debug, PartialEq, Eq, Structural)]
pub enum TransitionError {
    /// The transition was requested out of order for the current state.
    OrderViolation,
    /// A device rejected its mailbox configuration.
    ConfigError { address: u16 },
    /// A device's reported process-data size differs from its declared size.
    MismatchError { address: u16 },
    /// Distributed-clock synchronization did not converge in time.
    SyncTimeout,
}

/// Error returned by one cyclic process-data exchange.
#[derive(Clone, Copy, Debug, PartialEq, Eq, Structural)]
pub enum ExchangeError {
    /// The group is not in Op (never entered it, or has Faulted).
    NotOperational,
    /// No response frame arrived within the mailbox timeout.
    Timeout,
    /// A response frame arrived whose length is not the input image's.
    LengthMismatch,
}

/// Outcome of the distributed-clock synchronization procedure that
/// precedes Op, as observed on the wire.
#[derive(Clone, Copy, Debug, PartialEq, Eq, Structural)]
pub enum SyncOutcome {
    Converged,
    TimedOut,
}

/// What one exchange round-trip brought back from the segment.
pub enum ExchangeOutcome {
    /// A response frame carrying the new input image.
    Frame(Vec<u8>),
    /// No response within the mailbox timeout.
    Timeout,
}

/// The received input image of an exchange outcome, if any.
pub open spec fn rx_view(o: ExchangeOutcome) -> Option<Seq<u8>> {
    match o {
        ExchangeOutcome::Frame(f) => Some(f@),
        ExchangeOutcome::Timeout => None,
    }
}

/// Mathematical view of a device group.
pub struct GroupModel {
    pub devices: Seq<SubDevice>,
    pub inputs: Seq<u8>,
    pub outputs: Seq<u8>,
    pub state: GroupState,
    pub device_capacity: int,
    pub pdi_capacity: int,
    pub dc_sync_iterations: int,
    pub consecutive_failures: int,
}

/// Total declared input width of a run of devices.
pub open spec fn total_in(devs: Seq<SubDevice>) -> int
    decreases devs.len(),
{
    if devs.len() == 0 {
        0
    } else {
        total_in(devs.drop_last()) + devs.last().input_len
    }
}

/// Total declared output width of a run of devices.
pub open spec fn total_out(devs: Seq<SubDevice>) -> int
    decreases devs.len(),
{
    if devs.len() == 0 {
        0
    } else {
        total_out(devs.drop_last()) + devs.last().output_len
    }
}

/// Address of the first device whose mailbox parameters were rejected.
pub open spec fn first_bad_mailbox(devs: Seq<SubDevice>) -> Option<u16>
    decreases devs.len(),
{
    if devs.len() == 0 {
        None
    } else if !devs[0].mailbox_ok {
        Some(devs[0].configured_address)
    } else {
        first_bad_mailbox(devs.skip(1))
    }
}

/// Address of the first device whose reported process-data sizes differ
/// from the declared ones.
pub open spec fn first_size_mismatch(devs: Seq<SubDevice>) -> Option<u16>
    decreases devs.len(),
{
    if devs.len() == 0 {
        None
    } else if devs[0].reported_input_len != devs[0].input_len
        || devs[0].reported_output_len != devs[0].output_len {
        Some(devs[0].configured_address)
    } else {
        first_size_mismatch(devs.skip(1))
    }
}

impl GroupModel {
    /// The process-data image layout is well formed: device windows tile
    /// the input and output images in order, everything fits the static
    /// capacities, and configured addresses are unique.
    pub open spec fn layout_ok(self) -> bool {
        &&& self.devices.len() <= self.device_capacity
        &&& self.inputs.len() + self.outputs.len() <= self.pdi_capacity
        &&& self.inputs.len() == total_in(self.devices)
        &&& self.outputs.len() == total_out(self.devices)
        &&& forall|i: int| 0 <= i < self.devices.len()
            ==> (#[trigger] self.devices[i]).input_offset == total_in(self.devices.take(i))
                && self.devices[i].output_offset == total_out(self.devices.take(i))
        &&& forall|i: int, j: int|
            0 <= i < j < self.devices.len()
                ==> #[trigger] self.devices[i].configured_address
                    != #[trigger] self.devices[j].configured_address
    }

    /// Validity of a group value: layout well formed and the failure
    /// counter within the fault-escalation bounds.
    pub open spec fn inv(self) -> bool {
        &&& self.layout_ok()
        &&& 0 <= self.consecutive_failures <= 3
        &&& self.state is Op ==> self.consecutive_failures < 3
    }

    /// The same group, at another lifecycle state.
    pub open spec fn with_state(self, s: GroupState) -> GroupModel {
        GroupModel { state: s, ..self }
    }
}

/// Init -> PreOp: configure every device's mailbox parameters. Fails,
/// naming the offending device, if one rejects them; fails with an
/// ordering error away from Init. The group is unchanged on failure.
pub open spec fn spec_into_pre_op(g: GroupModel) -> (GroupModel, Result<(), TransitionError>) {
    if !(g.state is Init) {
        (g, Err(TransitionError::OrderViolation))
    } else {
        match first_bad_mailbox(g.devices) {
            Some(a) => (g, Err(TransitionError::ConfigError { address: a })),
            None => (g.with_state(GroupState::PreOp), Ok(())),
        }
    }
}

/// PreOp -> SafeOp: validate that every device reports its declared
/// process-data sizes, then hold all outputs at safe (zero) values.
/// Fails, naming the offending device, on a size mismatch; fails with an
/// ordering error away from PreOp. The group is unchanged on failure.
pub open spec fn spec_into_safe_op(g: GroupModel) -> (GroupModel, Result<(), TransitionError>) {
    if !(g.state is PreOp) {
        (g, Err(TransitionError::OrderViolation))
    } else {
        match first_size_mismatch(g.devices) {
            Some(a) => (g, Err(TransitionError::MismatchError { address: a })),
            None => (
                GroupModel {
                    state: GroupState::SafeOp,
                    outputs: Seq::new(g.outputs.len(), |i: int| 0u8),
                    ..g
                },
                Ok(()),
            ),
        }
    }
}

/// SafeOp -> Op: the distributed-clock synchronization step. With a sync
/// iteration count of zero the procedure is skipped; otherwise it fails
/// with `SyncTimeout` if synchronization did not converge in time.
pub open spec fn spec_sync_step(g: GroupModel, sync: SyncOutcome) -> (GroupModel, Result<
    (),
    TransitionError,
>) {
    if !(g.state is SafeOp) {
        (g, Err(TransitionError::OrderViolation))
    } else if g.dc_sync_iterations > 0 && sync is TimedOut {
        (g, Err(TransitionError::SyncTimeout))
    } else {
        (g.with_state(GroupState::Op), Ok(()))
    }
}

/// The convenience transition to Op: from Init, PreOp or SafeOp it
/// performs the remaining transitions in order and stops at the last
/// state successfully reached; from Op or Faulted it is an ordering
/// error.
pub open spec fn spec_into_op(g: GroupModel, sync: SyncOutcome) -> (GroupModel, Result<
    (),
    TransitionError,
>) {
    if g.state is Init {
        let s1 = spec_into_pre_op(g);
        if s1.1 is Err {
            s1
        } else {
            let s2 = spec_into_safe_op(s1.0);
            if s2.1 is Err {
                s2
            } else {
                spec_sync_step(s2.0, sync)
            }
        }
    } else if g.state is PreOp {
        let s2 = spec_into_safe_op(g);
        if s2.1 is Err {
            s2
        } else {
            spec_sync_step(s2.0, sync)
        }
    } else {
        spec_sync_step(g, sync)
    }
}

/// One cyclic process-data exchange against the model: away from Op the
/// exchange is refused; a frame of the input image's length is the new
/// input image and clears the failure run; a timeout or an ill-sized
/// frame lengthens the failure run, and the third consecutive failure
/// makes the group Faulted.
pub open spec fn spec_exchange(g: GroupModel, rx: Option<Seq<u8>>) -> (GroupModel, Result<
    (),
    ExchangeError,
>) {
    if !(g.state is Op) {
        (g, Err(ExchangeError::NotOperational))
    } else {
        match rx {
            Some(f) => if f.len() == g.inputs.len() {
                (GroupModel { inputs: f, consecutive_failures: 0, ..g }, Ok(()))
            } else {
                (spec_exchange_failure(g), Err(ExchangeError::LengthMismatch))
            },
            None => (spec_exchange_failure(g), Err(ExchangeError::Timeout)),
        }
    }
}

/// The group after one more consecutive exchange failure.
pub open spec fn spec_exchange_failure(g: GroupModel) -> GroupModel {
    GroupModel {
        consecutive_failures: g.consecutive_failures + 1,
        state: if g.consecutive_failures + 1 >= 3 {
            GroupState::Faulted
        } else {
            g.state
        },
        ..g
    }
}

/// A byte incremented by one, wrapping at the byte range.
pub open spec fn wrap_inc(b: u8) -> u8 {
    if b == 255 {
        0
    } else {
        (b + 1) as u8
    }
}

/// A zero-filled byte vector of the given length.
pub(crate) fn zeroed(n: usize) -> (v: Vec<u8>)
    ensures
        v@ == Seq::new(n as nat, |i: int| 0u8),
{
    let mut v: Vec<u8> = Vec::new();
    let mut i: usize = 0;
    while i < n
        invariant
            i <= n,
            v@.len() == i,
            forall|k: int| 0 <= k < i ==> v@[k] == 0u8,
        decreases n - i,
    {
        v.push(0);
        i += 1;
    }
    proof {
        assert(v@ =~= Seq::new(n as nat, |i: int| 0u8));
    }
    v
}

/// A fresh copy of a byte vector.
fn copy_bytes(src: &Vec<u8>) -> (v: Vec<u8>)
    ensures
        v@ == src@,
{
    let n = src.len();
    let mut v: Vec<u8> = Vec::new();
    let mut i: usize = 0;
    while i < n
        invariant
            i <= n,
            n == src@.len(),
            v@.len() == i,
            forall|k: int| 0 <= k < i ==> v@[k] == src@[k],
        decreases n - i,
    {
        v.push(src[i]);
        i += 1;
    }
    proof {
        assert(v@ =~= src@);
    }
    v
}

/// First device, in group order, whose mailbox parameters were rejected.
fn find_bad_mailbox(devs: &Vec<SubDevice>) -> (r: Option<u16>)
    ensures
        r == first_bad_mailbox(devs@),
{
    let n = devs.len();
    let mut i: usize = 0;
    proof {
        assert(devs@.skip(0) =~= devs@);
    }
    while i < n
        invariant
            i <= n,
            n == devs@.len(),
            first_bad_mailbox(devs@) == first_bad_mailbox(devs@.skip(i as int)),
        decreases n - i,
    {
        if !devs[i].mailbox_ok {
            proof {
                assert(devs@.skip(i as int)[0] == devs@[i as int]);
            }
            return Some(devs[i].configured_address);
        }
        proof {
            assert(devs@.skip(i as int).skip(1) =~= devs@.skip(i as int + 1));
        }
        i += 1;
    }
    proof {
        assert(devs@.skip(n as int) =~= Seq::<SubDevice>::empty());
    }
    None
}

/// First device, in group order, whose reported sizes differ from the
/// declared ones.
fn find_size_mismatch(devs: &Vec<SubDevice>) -> (r: Option<u16>)
    ensures
        r == first_size_mismatch(devs@),
{
    let n = devs.len();
    let mut i: usize = 0;
    proof {
        assert(devs@.skip(0) =~= devs@);
    }
    while i < n
        invariant
            i <= n,
            n == devs@.len(),
            first_size_mismatch(devs@) == first_size_mismatch(devs@.skip(i as int)),
        decreases n - i,
    {
        let d = &devs[i];
        if d.reported_input_len != d.input_len || d.reported_output_len != d.output_len {
            proof {
                assert(devs@.skip(i as int)[0] == devs@[i as int]);
            }
            return Some(d.configured_address);
        }
        proof {
            assert(devs@.skip(i as int).skip(1) =~= devs@.skip(i as int + 1));
        }
        i += 1;
    }
    proof {
        assert(devs@.skip(n as int) =~= Seq::<SubDevice>::empty());
    }
    None
}

/// A device group: the discovered devices, the process-data image they
/// share, and the current lifecycle state.
pub struct DeviceGroup {
    /// Devices in discovery order.
    pub devices: Vec<SubDevice>,
    /// Input region of the process-data image.
    pub inputs: Vec<u8>,
    /// Output region of the process-data image.
    pub outputs: Vec<u8>,
    /// Current lifecycle state.
    pub state: GroupState,
    /// Static cap on the number of devices.
    pub device_capacity: usize,
    /// Static cap on the total image length.
    pub pdi_capacity: usize,
    /// Distributed-clock sync iterations to run before Op; zero skips sync.
    pub dc_sync_iterations: u32,
    /// Length of the current run of failed exchanges.
    pub consecutive_failures: u8,
}

impl View for DeviceGroup {
    type V = GroupModel;

    open spec fn view(&self) -> GroupModel {
        GroupModel {
            devices: self.devices@,
            inputs: self.inputs@,
            outputs: self.outputs@,
            state: self.state,
            device_capacity: self.device_capacity as int,
            pdi_capacity: self.pdi_capacity as int,
            dc_sync_iterations: self.dc_sync_iterations as int,
            consecutive_failures: self.consecutive_failures as int,
        }
    }
}

/// A device record as handed out for inspection.
pub struct SubDeviceInfo {
    pub configured_address: u16,
    pub name: String,
    pub identity: Identity,
    pub input_len: usize,
    pub output_len: usize,
}

/// `info` reproduces the inspectable part of device record `d`.
pub open spec fn info_matches(info: SubDeviceInfo, d: SubDevice) -> bool {
    &&& info.configured_address == d.configured_address
    &&& info.name@ == d.name@
    &&& info.identity == d.identity
    &&& info.input_len == d.input_len
    &&& info.output_len == d.output_len
}

impl DeviceGroup {
    /// Init -> PreOp; see `spec_into_pre_op` for the exact behaviour.
    pub fn into_pre_op(&mut self) -> (r: Result<(), TransitionError>)
        ensures
            final(self)@ == spec_into_pre_op(old(self)@).0,
            r == spec_into_pre_op(old(self)@).1,
    {
        match self.state {
            GroupState::Init => {}
            _ => {
                return Err(TransitionError::OrderViolation);
            }
        }
        match find_bad_mailbox(&self.devices) {
            Some(a) => Err(TransitionError::ConfigError { address: a }),
            None => {
                self.state = GroupState::PreOp;
                Ok(())
            }
        }
    }

    /// PreOp -> SafeOp; see `spec_into_safe_op` for the exact behaviour.
    pub fn into_safe_op(&mut self) -> (r: Result<(), TransitionError>)
        ensures
            final(self)@ == spec_into_safe_op(old(self)@).0,
            r == spec_into_safe_op(old(self)@).1,
    {
        match self.state {
            GroupState::PreOp => {}
            _ => {
                return Err(TransitionError::OrderViolation);
            }
        }
        match find_size_mismatch(&self.devices) {
            Some(a) => Err(TransitionError::MismatchError { address: a }),
            None => {
                let n = self.outputs.len();
                self.outputs = zeroed(n);
                self.state = GroupState::SafeOp;
                Ok(())
            }
        }
    }

    /// The convenience transition to Op: performs whatever of
    /// Init -> PreOp -> SafeOp -> Op remains, in order, and stops at the
    /// last state successfully reached; see `spec_into_op`.
    ///
    /// `sync` is the outcome of the distributed-clock synchronization
    /// procedure, as driven against the segment by the caller; it is
    /// consulted only when the sync iteration count is nonzero.
    pub fn into_op(&mut self, sync: SyncOutcome) -> (r: Result<(), TransitionError>)
        ensures
            final(self)@ == spec_into_op(old(self)@, sync).0,
            r == spec_into_op(old(self)@, sync).1,
    {
        match self.state {
            GroupState::Init => {
                if let Err(e) = self.into_pre_op() {
                    return Err(e);
                }
            }
            _ => {}
        }
        match self.state {
            GroupState::PreOp => {
                if let Err(e) = self.into_safe_op() {
                    return Err(e);
                }
            }
            _ => {}
        }
        match self.state {
            GroupState::SafeOp => {
                let timed_out = match sync {
                    SyncOutcome::TimedOut => true,
                    SyncOutcome::Converged => false,
                };
                if self.dc_sync_iterations > 0 && timed_out {
                    return Err(TransitionError::SyncTimeout);
                }
                self.state = GroupState::Op;
                Ok(())
            }
            _ => Err(TransitionError::OrderViolation),
        }
    }

    /// The group after one more consecutive exchange failure; the third
    /// in a row makes it Faulted.
    fn note_exchange_failure(&mut self)
        requires
            0 <= old(self)@.consecutive_failures < 3,
        ensures
            final(self)@ == spec_exchange_failure(old(self)@),
    {
        self.consecutive_failures = self.consecutive_failures + 1;
        if self.consecutive_failures >= 3 {
            self.state = GroupState::Faulted;
        }
    }

    /// One cyclic process-data exchange. The caller has sent the output
    /// image and hands in what came back; see `spec_exchange` for the
    /// exact behaviour, including fault escalation after three
    /// consecutive failures.
    pub fn exchange(&mut self, received: ExchangeOutcome) -> (r: Result<(), ExchangeError>)
        requires
            old(self)@.inv(),
        ensures
            final(self)@ == spec_exchange(old(self)@, rx_view(received)).0,
            r == spec_exchange(old(self)@, rx_view(received)).1,
            final(self)@.inv(),
    {
        match self.state {
            GroupState::Op => {}
            _ => {
                return Err(ExchangeError::NotOperational);
            }
        }
        match received {
            ExchangeOutcome::Frame(f) => {
                if f.len() == self.inputs.len() {
                    self.inputs = f;
                    self.consecutive_failures = 0;
                    Ok(())
                } else {
                    self.note_exchange_failure();
                    Err(ExchangeError::LengthMismatch)
                }
            }
            ExchangeOutcome::Timeout => {
                self.note_exchange_failure();
                Err(ExchangeError::Timeout)
            }
        }
    }

    /// One exchange against a loopback stub: the transmitted output
    /// image comes straight back as the input image.
    pub fn exchange_loopback(&mut self) -> (r: Result<(), ExchangeError>)
        requires
            old(self)@.inv(),
            old(self)@.state is Op,
            old(self)@.inputs.len() == old(self)@.outputs.len(),
        ensures
            r == Ok::<(), ExchangeError>(()),
            final(self)@ == (GroupModel {
                inputs: old(self)@.outputs,
                consecutive_failures: 0,
                ..old(self)@
            }),
            final(self)@.inv(),
    {
        let frame = copy_bytes(&self.outputs);
        self.exchange(ExchangeOutcome::Frame(frame))
    }

    /// The reference per-cycle callback: increment every output byte of
    /// every SubDevice by one, wrapping within the byte.
    pub fn increment_outputs(&mut self)
        ensures
            final(self)@ == (GroupModel {
                outputs: old(self)@.outputs.map(|i: int, b: u8| wrap_inc(b)),
                ..old(self)@
            }),
    {
        let n = self.outputs.len();
        let mut k: usize = 0;
        while k < n
            invariant
                k <= n,
                n == self.outputs@.len(),
                self.outputs@.len() == old(self).outputs@.len(),
                forall|j: int| 0 <= j < k ==> self.outputs@[j] == wrap_inc(old(self).outputs@[j]),
                forall|j: int| k <= j < n ==> self.outputs@[j] == old(self).outputs@[j],
                self.devices == old(self).devices,
                self.inputs == old(self).inputs,
                self.state == old(self).state,
                self.device_capacity == old(self).device_capacity,
                self.pdi_capacity == old(self).pdi_capacity,
                self.dc_sync_iterations == old(self).dc_sync_iterations,
                self.consecutive_failures == old(self).consecutive_failures,
            decreases n - k,
        {
            let b = self.outputs[k];
            self.outputs[k] = if b == 255 { 0 } else { b + 1 };
            k += 1;
        }
        proof {
            assert(self.outputs@ =~= old(self).outputs@.map(|i: int, b: u8| wrap_inc(b)));
        }
    }

    /// The devices of the group, as inspectable records in group order.
    pub fn list_devices(&self) -> (r: Vec<SubDeviceInfo>)
        ensures
            r@.len() == self@.devices.len(),
            forall|i: int| 0 <= i < r@.len() ==> info_matches(#[trigger] r@[i], self@.devices[i]),
    {
        let n = self.devices.len();
        let mut r: Vec<SubDeviceInfo> = Vec::new();
        let mut i: usize = 0;
        while i < n
            invariant
                i <= n,
                n == self.devices@.len(),
                r@.len() == i,
                forall|j: int| 0 <= j < i ==> info_matches(#[trigger] r@[j], self.devices@[j]),
            decreases n - i,
        {
            let d = &self.devices[i];
            r.push(SubDeviceInfo {
                configured_address: d.configured_address,
                name: d.name.clone(),
                identity: d.identity,
                input_len: d.input_len,
                output_len: d.output_len,
            });
            i += 1;
        }
        r
    }
}

/// Lifecycle transitions are strictly monotonic in the forward order of
/// states: no transition moves a group backwards, and asking for SafeOp
/// from Init fails with an ordering error instead of skipping PreOp.
pub proof fn lemma_transitions_monotonic(g: GroupModel, sync: SyncOutcome, rx: Option<Seq<u8>>)
    ensures
        state_rank(spec_into_pre_op(g).0.state) >= state_rank(g.state),
        state_rank(spec_into_safe_op(g).0.state) >= state_rank(g.state),
        state_rank(spec_sync_step(g, sync).0.state) >= state_rank(g.state),
        state_rank(spec_into_op(g, sync).0.state) >= state_rank(g.state),
        state_rank(spec_exchange(g, rx).0.state) >= state_rank(g.state),
        g.state is Init ==> spec_into_safe_op(g) == (
            g,
            Err::<(), TransitionError>(TransitionError::OrderViolation),
        ),
{
}

/// Fault escalation: from a healthy Op group, three consecutive exchange
/// timeouts leave the group Faulted, and a fourth exchange is refused
/// outright, leaving the group unchanged.
pub proof fn lemma_fault_escalation(g: GroupModel)
    requires
        g.inv(),
        g.state is Op,
        g.consecutive_failures == 0,
    ensures
        ({
            let g1 = spec_exchange(g, None).0;
            let g2 = spec_exchange(g1, None).0;
            let g3 = spec_exchange(g2, None).0;
            &&& g1.state is Op
            &&& g2.state is Op
            &&& g3.state is Faulted
            &&& spec_exchange(g3, None).0 == g3
            &&& spec_exchange(g3, None).1 == Err::<(), ExchangeError>(
                ExchangeError::NotOperational,
            )
        }),
{
}

proof fn lemma_total_out_take_succ(devs: Seq<SubDevice>, i: int)
    requires
        0 <= i < devs.len(),
    ensures
        total_out(devs.take(i + 1)) == total_out(devs.take(i)) + devs[i].output_len,
{
    assert(devs.take(i + 1).drop_last() =~= devs.take(i));
    assert(devs.take(i + 1).last() == devs[i]);
}

proof fn lemma_total_out_prefix_le(devs: Seq<SubDevice>, i: int)
    requires
        0 <= i <= devs.len(),
    ensures
        total_out(devs.take(i)) <= total_out(devs),
    decreases devs.len() - i,
{
    if i == devs.len() {
        assert(devs.take(i) =~= devs);
    } else {
        lemma_total_out_take_succ(devs, i);
        lemma_total_out_prefix_le(devs, i + 1);
    }
}

/// Round trip through a loopback exchange: each device with a symmetric
/// window sees, in its input window, exactly the bytes that stood in its
/// output window before the exchange.
pub proof fn lemma_loopback_window(pre: GroupModel, post: GroupModel, i: int)
    requires
        pre.inv(),
        post.devices == pre.devices,
        post.inputs == pre.outputs,
        pre.inputs.len() == pre.outputs.len(),
        0 <= i < pre.devices.len(),
        pre.devices[i].input_offset == pre.devices[i].output_offset,
        pre.devices[i].input_len == pre.devices[i].output_len,
    ensures
        post.inputs.subrange(
            pre.devices[i].input_offset as int,
            pre.devices[i].input_offset + pre.devices[i].input_len,
        ) == pre.outputs.subrange(
            pre.devices[i].output_offset as int,
            pre.devices[i].output_offset + pre.devices[i].output_len,
        ),
{
    lemma_total_out_take_succ(pre.devices, i);
    lemma_total_out_prefix_le(pre.devices, i + 1);
}

} // verus!
