//! The master: top-level handle that performs the bus scan. A scan
//! borrows the transport halves from the lease registry, builds a device
//! group from what enumeration brought back, and — on every path, also
//! when enumeration or the capacity check failed — parks the halves in
//! the registry again.

use vstd::prelude::*;

use crate::group::{DeviceGroup, GroupModel, GroupState, Identity, SubDevice};
use crate::group::{total_in, total_out, zeroed};
use crate::registry::LeaseRegistry;

verus! {

/// Configuration fixed at master construction.
#[derive(Clone, Copy, Debug, PartialEq, Eq, Structural)]
pub struct MasterConfig {
    /// Delay between polls of the transport, in milliseconds.
    pub wait_loop_delay_ms: u64,
    /// Mailbox response timeout, in milliseconds.
    pub mailbox_response_ms: u64,
    /// Distributed-clock sync iterations before Op; zero skips sync.
    pub dc_sync_iterations: u32,
}

impl Default for MasterConfig {
    /// The reference configuration: 2 ms poll delay, 1 s mailbox
    /// timeout, no distributed-clock synchronization.
    fn default() -> (c: MasterConfig)
        ensures
            c == (MasterConfig {
                wait_loop_delay_ms: 2,
                mailbox_response_ms: 1000,
                dc_sync_iterations: 0,
            }),
    {
        MasterConfig { wait_loop_delay_ms: 2, mailbox_response_ms: 1000, dc_sync_iterations: 0 }
    }
}

/// Top-level handle bound to one exchange engine.
pub struct Master {
    pub config: MasterConfig,
}

/// One device as enumeration found it on the segment, before it is
/// placed into a group.
pub struct DiscoveredDevice {
    /// Name read over the mailbox.
    pub name: String,
    /// Identity words read over the mailbox.
    pub identity: Identity,
    /// Declared input width in bytes.
    pub input_len: usize,
    /// Declared output width in bytes.
    pub output_len: usize,
    /// Whether the device accepted its mailbox parameters.
    pub mailbox_ok: bool,
    /// Input width the device itself reports.
    pub reported_input_len: usize,
    /// Output width the device itself reports.
    pub reported_output_len: usize,
}

/// What enumerating the segment brought back.
pub enum Enumeration {
    /// Every device answered; the records are in discovery order.
    Complete(Vec<DiscoveredDevice>),
    /// Some device did not answer within the mailbox timeout.
    TimedOut,
}

/// Error returned by a bus scan.
#[derive(Clone, Copy, Debug, PartialEq, Eq, Structural)]
pub enum ScanError {
    /// The transport halves are leased to someone else; retry later.
    TransportBusy,
    /// Enumeration did not complete within the mailbox timeout.
    Timeout,
    /// Discovered devices or their image exceed the static capacities.
    CapacityExceeded,
}

/// Total declared input width of a run of discovered devices.
pub open spec fn disc_total_in(devs: Seq<DiscoveredDevice>) -> int
    decreases devs.len(),
{
    if devs.len() == 0 {
        0
    } else {
        disc_total_in(devs.drop_last()) + devs.last().input_len
    }
}

/// Total declared output width of a run of discovered devices.
pub open spec fn disc_total_out(devs: Seq<DiscoveredDevice>) -> int
    decreases devs.len(),
{
    if devs.len() == 0 {
        0
    } else {
        disc_total_out(devs.drop_last()) + devs.last().output_len
    }
}

/// `n` is a power of two.
pub open spec fn is_pow2(n: int) -> bool
    decreases n,
{
    if n <= 0 {
        false
    } else if n == 1 {
        true
    } else {
        n % 2 == 0 && is_pow2(n / 2)
    }
}

/// Base of the configured-address range; discovery order decides the
/// rest: device `i` gets address base + 1 + i.
pub open spec fn spec_address_of(i: int) -> int {
    0x1000 + 1 + i
}

/// SubDevice record `s` is what a scan makes of discovered device `d`
/// at position `i` of discovery order `all`.
pub open spec fn subdevice_matches(
    s: SubDevice,
    d: DiscoveredDevice,
    i: int,
    all: Seq<DiscoveredDevice>,
) -> bool {
    &&& s.configured_address == spec_address_of(i)
    &&& s.name@ == d.name@
    &&& s.identity == d.identity
    &&& s.input_len == d.input_len
    &&& s.output_len == d.output_len
    &&& s.input_offset == disc_total_in(all.take(i))
    &&& s.output_offset == disc_total_out(all.take(i))
    &&& s.mailbox_ok == d.mailbox_ok
    &&& s.reported_input_len == d.reported_input_len
    &&& s.reported_output_len == d.reported_output_len
}

/// Group `m` is exactly what a scan of `devs` must produce: a valid
/// group in Init, with the configured capacities, the devices in
/// discovery order with sequential addresses and consecutive byte
/// windows, and a zeroed process-data image sized to the totals.
pub open spec fn scan_group_ok(
    m: GroupModel,
    devs: Seq<DiscoveredDevice>,
    device_capacity: int,
    pdi_capacity: int,
    dc_sync_iterations: int,
) -> bool {
    &&& m.inv()
    &&& m.state is Init
    &&& m.consecutive_failures == 0
    &&& m.device_capacity == device_capacity
    &&& m.pdi_capacity == pdi_capacity
    &&& m.dc_sync_iterations == dc_sync_iterations
    &&& m.devices.len() == devs.len()
    &&& forall|i: int|
        0 <= i < devs.len() ==> subdevice_matches(#[trigger] m.devices[i], devs[i], i, devs)
    &&& m.inputs.len() == disc_total_in(devs)
    &&& m.outputs.len() == disc_total_out(devs)
    &&& forall|j: int| 0 <= j < m.inputs.len() ==> m.inputs[j] == 0u8
    &&& forall|j: int| 0 <= j < m.outputs.len() ==> m.outputs[j] == 0u8
}

/// The capacity check a scan applies to what enumeration found.
pub open spec fn exceeds_capacity(
    devs: Seq<DiscoveredDevice>,
    device_capacity: int,
    pdi_capacity: int,
) -> bool {
    devs.len() > device_capacity || disc_total_in(devs) + disc_total_out(devs) > pdi_capacity
}

proof fn lemma_disc_take_succ(devs: Seq<DiscoveredDevice>, i: int)
    requires
        0 <= i < devs.len(),
    ensures
        disc_total_in(devs.take(i + 1)) == disc_total_in(devs.take(i)) + devs[i].input_len,
        disc_total_out(devs.take(i + 1)) == disc_total_out(devs.take(i)) + devs[i].output_len,
{
    assert(devs.take(i + 1).drop_last() =~= devs.take(i));
    assert(devs.take(i + 1).last() == devs[i]);
}

proof fn lemma_disc_prefix_le(devs: Seq<DiscoveredDevice>, i: int)
    requires
        0 <= i <= devs.len(),
    ensures
        disc_total_in(devs.take(i)) <= disc_total_in(devs),
        disc_total_out(devs.take(i)) <= disc_total_out(devs),
    decreases devs.len() - i,
{
    if i == devs.len() {
        assert(devs.take(i) =~= devs);
    } else {
        lemma_disc_take_succ(devs, i);
        lemma_disc_prefix_le(devs, i + 1);
    }
}

/// Totals over built SubDevice records equal totals over the discovered
/// records they were built from.
proof fn lemma_sub_disc_totals(subs: Seq<SubDevice>, devs: Seq<DiscoveredDevice>)
    requires
        subs.len() == devs.len(),
        forall|k: int|
            0 <= k < subs.len()
                ==> (#[trigger] subs[k]).input_len == devs[k].input_len
                    && subs[k].output_len == devs[k].output_len,
    ensures
        total_in(subs) == disc_total_in(devs),
        total_out(subs) == disc_total_out(devs),
    decreases subs.len(),
{
    if subs.len() > 0 {
        lemma_sub_disc_totals(subs.drop_last(), devs.drop_last());
    }
}

impl Master {
    /// A master with the given fixed configuration.
    pub fn new(config: MasterConfig) -> (m: Master)
        ensures
            m.config == config,
    {
        Master { config }
    }

    /// Place the discovered devices into a fresh group in Init, with
    /// sequential configured addresses, consecutive byte windows, and a
    /// zeroed process-data image — unless they exceed the capacities.
    fn build_group(
        &self,
        devs: Vec<DiscoveredDevice>,
        device_capacity: usize,
        pdi_capacity: usize,
    ) -> (r: Result<DeviceGroup, ScanError>)
        requires
            device_capacity <= 0x8000,
        ensures
            exceeds_capacity(devs@, device_capacity as int, pdi_capacity as int)
                ==> r == Err::<DeviceGroup, ScanError>(ScanError::CapacityExceeded),
            !exceeds_capacity(devs@, device_capacity as int, pdi_capacity as int) ==> (r matches Ok(
                g,
            ) && scan_group_ok(
                g@,
                devs@,
                device_capacity as int,
                pdi_capacity as int,
                self.config.dc_sync_iterations as int,
            )),
    {
        let n = devs.len();
        if n > device_capacity {
            return Err(ScanError::CapacityExceeded);
        }
        let mut subs: Vec<SubDevice> = Vec::new();
        let mut in_off: usize = 0;
        let mut out_off: usize = 0;
        let mut i: usize = 0;
        proof {
            assert(devs@.take(0) =~= Seq::<DiscoveredDevice>::empty());
        }
        while i < n
            invariant
                i <= n,
                n == devs@.len(),
                n <= device_capacity <= 0x8000,
                subs@.len() == i,
                in_off == disc_total_in(devs@.take(i as int)),
                out_off == disc_total_out(devs@.take(i as int)),
                in_off + out_off <= pdi_capacity,
                forall|j: int|
                    0 <= j < i ==> subdevice_matches(#[trigger] subs@[j], devs@[j], j, devs@),
            decreases n - i,
        {
            let d = &devs[i];
            let budget = pdi_capacity - in_off - out_off;
            if d.input_len > budget || d.output_len > budget - d.input_len {
                proof {
                    lemma_disc_take_succ(devs@, i as int);
                    lemma_disc_prefix_le(devs@, i as int + 1);
                }
                return Err(ScanError::CapacityExceeded);
            }
            let address: u16 = 0x1001 + (i as u16);
            subs.push(SubDevice {
                configured_address: address,
                name: d.name.clone(),
                identity: d.identity,
                input_offset: in_off,
                input_len: d.input_len,
                output_offset: out_off,
                output_len: d.output_len,
                mailbox_ok: d.mailbox_ok,
                reported_input_len: d.reported_input_len,
                reported_output_len: d.reported_output_len,
            });
            in_off = in_off + d.input_len;
            out_off = out_off + d.output_len;
            proof {
                lemma_disc_take_succ(devs@, i as int);
            }
            i += 1;
        }
        proof {
            assert(devs@.take(n as int) =~= devs@);
        }
        let inputs = zeroed(in_off);
        let outputs = zeroed(out_off);
        let g = DeviceGroup {
            devices: subs,
            inputs,
            outputs,
            state: GroupState::Init,
            device_capacity,
            pdi_capacity,
            dc_sync_iterations: self.config.dc_sync_iterations,
            consecutive_failures: 0,
        };
        proof {
            lemma_sub_disc_totals(g@.devices, devs@);
            assert forall|j: int| 0 <= j < g@.devices.len() implies (#[trigger] g@.devices[j]).input_offset
                == total_in(g@.devices.take(j)) && g@.devices[j].output_offset == total_out(
                g@.devices.take(j),
            ) by {
                lemma_sub_disc_totals(g@.devices.take(j), devs@.take(j));
            };
        }
        Ok(g)
    }

    /// Bus scan: acquire the transport halves, drive enumeration of the
    /// segment, build a device group from its outcome, and release the
    /// halves back to the registry — also when enumeration or the
    /// capacity check failed, so that no lease is ever leaked.
    ///
    /// `enumeration` is what the driver task brought back from the
    /// segment while the halves were borrowed.
    pub fn scan(
        &self,
        registry: &mut LeaseRegistry,
        enumeration: Enumeration,
        device_capacity: usize,
        pdi_capacity: usize,
    ) -> (r: Result<DeviceGroup, ScanError>)
        requires
            2 <= device_capacity <= 0x8000,
            is_pow2(device_capacity as int),
            is_pow2(pdi_capacity as int),
        ensures
            old(registry).is_leased() ==> r == Err::<DeviceGroup, ScanError>(
                ScanError::TransportBusy,
            ) && *final(registry) == *old(registry),
            old(registry).is_free() ==> final(registry).is_free() && final(registry).parked()
                == old(registry).parked(),
            old(registry).is_free() ==> match enumeration {
                Enumeration::TimedOut => r == Err::<DeviceGroup, ScanError>(ScanError::Timeout),
                Enumeration::Complete(devs) => {
                    if exceeds_capacity(devs@, device_capacity as int, pdi_capacity as int) {
                        r == Err::<DeviceGroup, ScanError>(ScanError::CapacityExceeded)
                    } else {
                        r matches Ok(g) && scan_group_ok(
                            g@,
                            devs@,
                            device_capacity as int,
                            pdi_capacity as int,
                            self.config.dc_sync_iterations as int,
                        )
                    }
                },
            },
    {
        let halves = match registry.acquire() {
            Ok(h) => h,
            Err(_) => {
                return Err(ScanError::TransportBusy);
            }
        };
        // While the halves are borrowed, the driver task bound to them
        // pumps the segment; `enumeration` is what it brought back.
        let result = match enumeration {
            Enumeration::TimedOut => Err(ScanError::Timeout),
            Enumeration::Complete(devs) => self.build_group(devs, device_capacity, pdi_capacity),
        };
        // Park the halves again on every path before reporting.
        let _ = registry.release(halves);
        result
    }
}

} // verus!
