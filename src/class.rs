use vstd::prelude::*;

verus! {

/// Interface class code: application specific.
pub const USB_CLASS_APPLICATION_SPECIFIC: u8 = 0xfe;

/// Interface subclass code: device firmware upgrade.
pub const DFU_SUBCLASS_FIRMWARE_UPGRADE: u8 = 0x01;

/// Interface protocol code: run-time protocol.
pub const DFU_PROTOCOL_RUNTIME: u8 = 0x01;

/// Descriptor type of the DFU functional descriptor.
pub const DFU_TYPE_FUNCTIONAL: u8 = 0x21;

/// Request code of DFU_DETACH.
pub const DFU_REQ_DETACH: u8 = 0x00;

/// Request code of DFU_GETSTATUS.
pub const DFU_REQ_GETSTATUS: u8 = 0x03;

/// DFU specification release that the functional descriptor announces (1.1a).
pub const DFU_VERSION: u16 = 0x011a;

/// Status code reported by DFU_GETSTATUS: no error condition is present.
pub const DFU_STATUS_OK: u8 = 0x00;

/// The capability set of a device: fixed facts that shape the functional descriptor and the
/// detach policy.
#[derive(Clone, Copy, Debug, PartialEq, Eq, Structural)]
pub struct DfuCapabilities {
    /// The device performs a detach-attach sequence on DFU_DETACH by itself; the host must not
    /// issue a USB reset.
    pub will_detach: bool,
    /// The bootloader can communicate via USB during the manifestation phase.
    pub manifestation_tolerant: bool,
    /// The bootloader can download firmware to the device.
    pub can_download: bool,
    /// The bootloader can read the device firmware and upload it to the host.
    pub can_upload: bool,
    /// Maximum time, in milliseconds, that the device waits for a USB reset after DFU_DETACH.
    pub detach_timeout_ms: u16,
    /// Bootloader maximum transfer size in bytes per control-write transaction.
    pub max_transfer_size: u16,
}

/// One bit for a flag.
pub open spec fn flag_bit(b: bool) -> u8 {
    if b { 1 } else { 0 }
}

/// Low byte of a little-endian 16-bit value.
pub open spec fn le_lo(x: u16) -> u8 {
    (x % 256) as u8
}

/// High byte of a little-endian 16-bit value.
pub open spec fn le_hi(x: u16) -> u8 {
    (x / 256) as u8
}

/// The `bmAttributes` byte: bit 3 `will_detach`, bit 2 `manifestation_tolerant`,
/// bit 1 `can_download`, bit 0 `can_upload`, the upper nibble zero.
pub open spec fn attributes_of(c: DfuCapabilities) -> u8 {
    (8 * flag_bit(c.will_detach) + 4 * flag_bit(c.manifestation_tolerant) + 2 * flag_bit(
        c.can_download,
    ) + flag_bit(c.can_upload)) as u8
}

/// The body of the run-time DFU functional descriptor (what follows its length and type bytes).
pub open spec fn functional_body_of(c: DfuCapabilities) -> Seq<u8> {
    seq![
        attributes_of(c),
        le_lo(c.detach_timeout_ms),
        le_hi(c.detach_timeout_ms),
        le_lo(c.max_transfer_size),
        le_hi(c.max_transfer_size),
        le_lo(DFU_VERSION),
        le_hi(DFU_VERSION),
    ]
}

fn flag_byte(b: bool) -> (r: u8)
    ensures
        r == flag_bit(b),
{
    if b {
        1
    } else {
        0
    }
}

fn le_bytes(x: u16) -> (r: (u8, u8))
    ensures
        r.0 == le_lo(x),
        r.1 == le_hi(x),
{
    ((x % 256) as u8, (x / 256) as u8)
}

impl Default for DfuCapabilities {
    /// The defaults: detaches by itself, not manifestation tolerant, can download and upload,
    /// 255 ms detach timeout, 2048-byte transfers.
    fn default() -> (r: Self)
        ensures
            r == (DfuCapabilities {
                will_detach: true,
                manifestation_tolerant: false,
                can_download: true,
                can_upload: true,
                detach_timeout_ms: 255,
                max_transfer_size: 2048,
            }),
    {
        DfuCapabilities {
            will_detach: true,
            manifestation_tolerant: false,
            can_download: true,
            can_upload: true,
            detach_timeout_ms: 255,
            max_transfer_size: 2048,
        }
    }
}

impl DfuCapabilities {
    /// The `bmAttributes` byte of the functional descriptor. Each capability flag has a bit of
    /// its own: bit 3 `will_detach`, bit 2 `manifestation_tolerant`, bit 1 `can_download`,
    /// bit 0 `can_upload`; the other bits are zero.
    pub fn dfu_bm_attributes(&self) -> (r: u8)
        ensures
            r == attributes_of(*self),
            (r >> 3u8) & 1 == flag_bit(self.will_detach),
            (r >> 2u8) & 1 == flag_bit(self.manifestation_tolerant),
            (r >> 1u8) & 1 == flag_bit(self.can_download),
            r & 1 == flag_bit(self.can_upload),
            r >> 4u8 == 0,
    {
        let wd = flag_byte(self.will_detach);
        let mt = flag_byte(self.manifestation_tolerant);
        let dn = flag_byte(self.can_download);
        let up = flag_byte(self.can_upload);
        let r: u8 = 8 * wd + 4 * mt + 2 * dn + up;
        assert(wd <= 1 && mt <= 1 && dn <= 1 && up <= 1 && r == 8 * wd + 4 * mt + 2 * dn + up
            ==> (r >> 3u8) & 1 == wd && (r >> 2u8) & 1 == mt && (r >> 1u8) & 1 == dn && r & 1
            == up && r >> 4u8 == 0) by (bit_vector);
        r
    }

    /// The body of the run-time DFU functional descriptor: `bmAttributes`, then
    /// `wDetachTimeOut`, `wTransferSize` and `bcdDFUVersion`, each little-endian.
    pub fn functional_descriptor(&self) -> (r: [u8; 7])
        ensures
            r@ == functional_body_of(*self),
    {
        let attributes = self.dfu_bm_attributes();
        let (t0, t1) = le_bytes(self.detach_timeout_ms);
        let (s0, s1) = le_bytes(self.max_transfer_size);
        let (v0, v1) = le_bytes(DFU_VERSION);
        let r = [attributes, t0, t1, s0, s1, v0, v1];
        assert(r@ =~= functional_body_of(*self));
        r
    }
}


/// State of the run-time class.
#[derive(Clone, Copy, Debug, PartialEq, Eq, Structural)]
pub enum DfuState {
    /// Device is running its normal application.
    AppIdle,
    /// Device is running its normal application, has received the DFU_DETACH request, and is
    /// waiting for a USB reset or for the detach timeout.
    AppDetach,
}

/// The byte that DFU_GETSTATUS reports for a state.
pub open spec fn state_code(s: DfuState) -> u8 {
    match s {
        DfuState::AppIdle => 0,
        DfuState::AppDetach => 1,
    }
}

impl DfuState {
    /// The byte that DFU_GETSTATUS reports for this state (`appIDLE` is 0, `appDETACH` is 1).
    pub fn code(&self) -> (r: u8)
        ensures
            r == state_code(*self),
    {
        match self {
            DfuState::AppIdle => 0,
            DfuState::AppDetach => 1,
        }
    }
}

/// Type of a control request, as its `bmRequestType` gives it.
#[derive(Clone, Copy, Debug, PartialEq, Eq, Structural)]
pub enum RequestType {
    /// A USB standard request.
    Standard,
    /// A class request.
    Class,
    /// A vendor-specific request.
    Vendor,
    /// Reserved.
    Reserved,
}

/// Recipient of a control request, as its `bmRequestType` gives it.
#[derive(Clone, Copy, Debug, PartialEq, Eq, Structural)]
pub enum Recipient {
    /// The entire device.
    Device,
    /// An interface; the request's `index` names it.
    Interface,
    /// An endpoint.
    Endpoint,
    /// None of the above.
    Other,
    /// Reserved.
    Reserved,
}

/// The fields of a control request's setup packet that the class reads.
#[derive(Clone, Copy, Debug, PartialEq, Eq, Structural)]
pub struct ControlRequest {
    /// Type of the request.
    pub request_type: RequestType,
    /// Recipient of the request.
    pub recipient: Recipient,
    /// Request code (`bRequest`).
    pub request: u8,
    /// Request value (`wValue`).
    pub value: u16,
    /// Request index (`wIndex`).
    pub index: u16,
}

/// What to do with a device-to-host control transfer.
#[derive(Clone, Copy, Debug)]
pub enum InResponse {
    /// The request is not for this class: leave it to others.
    Ignore,
    /// Reject the request (stall).
    Reject,
    /// Accept the request and answer with these bytes.
    Accept([u8; 6]),
}

/// What to do with a host-to-device control transfer.
#[derive(Clone, Copy, Debug, PartialEq, Eq, Structural)]
pub enum OutResponse {
    /// The request is not for this class: leave it to others.
    Ignore,
    /// Reject the request (stall).
    Reject,
    /// Accept the request.
    Accept,
}

/// A request is for this class when it is a class request to the interface `iface`.
pub open spec fn addressed_to(req: ControlRequest, iface: u8) -> bool {
    &&& req.request_type == RequestType::Class
    &&& req.recipient == Recipient::Interface
    &&& req.index == iface as u16
}

/// The DFU_GETSTATUS record: status OK, a zero poll timeout (3 bytes), the state, and a zero
/// string index.
pub open spec fn status_record(s: DfuState) -> Seq<u8> {
    seq![DFU_STATUS_OK, 0u8, 0u8, 0u8, state_code(s), 0u8]
}

/// The pending timeout after `elapsed` milliseconds: it counts down, saturating at zero, and is
/// cleared when it reaches zero.
pub open spec fn tick_pending(p: Option<u16>, elapsed: u16) -> Option<u16> {
    match p {
        None => None,
        Some(t) => if t <= elapsed {
            None
        } else {
            Some((t - elapsed) as u16)
        },
    }
}

/// Whether advancing time by `elapsed` milliseconds switches to DFU mode: a pending timeout
/// reaches zero and the device detaches by itself.
pub open spec fn tick_fires(p: Option<u16>, elapsed: u16, will_detach: bool) -> bool {
    will_detach && p is Some && p->0 <= elapsed
}

/// Whether advancing time by `elapsed` milliseconds lets a pending timeout run out without a
/// switch to DFU mode: the device waits for the host's reset, which did not come.
pub open spec fn tick_lapses(p: Option<u16>, elapsed: u16, will_detach: bool) -> bool {
    !will_detach && p is Some && p->0 <= elapsed
}

/// Whether a USB reset switches to DFU mode: a timeout is pending and the device waits for
/// the host's reset.
pub open spec fn reset_fires(p: Option<u16>, will_detach: bool) -> bool {
    !will_detach && p is Some
}

/// Sum of the elapsed times of a run of ticks.
pub open spec fn total_elapsed(steps: Seq<u16>) -> int
    decreases steps.len(),
{
    if steps.len() == 0 {
        0
    } else {
        total_elapsed(steps.drop_last()) + steps.last()
    }
}

/// A sum of elapsed times is never negative.
proof fn lemma_total_elapsed_nonneg(steps: Seq<u16>)
    ensures
        total_elapsed(steps) >= 0,
    decreases steps.len(),
{
    if steps.len() > 0 {
        lemma_total_elapsed_nonneg(steps.drop_last());
    }
}

/// The default capability set, which [`DfuRuntimeOps::capability_set`] gives unless overridden.
pub open spec fn default_capabilities() -> DfuCapabilities {
    DfuCapabilities {
        will_detach: true,
        manifestation_tolerant: false,
        can_download: true,
        can_upload: true,
        detach_timeout_ms: 255,
        max_transfer_size: 2048,
    }
}

/// Device-specific operations of [`DfuRuntimeClass`].
pub trait DfuRuntimeOps {
    /// Switch to DFU mode.
    ///
    /// The device should do any necessary cleanup and switch to DFU mode, most often by jumping
    /// to a DFU-capable bootloader. With `will_detach` false this runs when a USB reset comes
    /// while a detach timeout is pending; with `will_detach` true it runs when the timeout
    /// returned from [`DfuRuntimeOps::allow`] runs out in [`DfuRuntimeClass::tick`].
    fn detach(&mut self);

    /// The answer that [`DfuRuntimeOps::allow`] gives, in the state before the call, to a
    /// DFU_DETACH request with `wDetachTimeout` equal to `timeout`. By default every request is
    /// accepted with its timeout unmodified.
    open spec fn allow_decision(&self, timeout: u16) -> Option<u16> {
        Some(timeout)
    }

    /// Decides whether a DFU_DETACH request is accepted.
    ///
    /// Receives the request's `wDetachTimeout`; returns the timeout to count down, or `None` to
    /// reject the request (e.g. to prevent unauthorized firmware upgrades). An impl that keeps
    /// the default [`DfuRuntimeOps::allow_decision`] returns `Some(timeout)`.
    fn allow(&mut self, timeout: u16) -> (r: Option<u16>)
        ensures
            r == old(self).allow_decision(timeout),
    ;

    /// The capability set of the device. By default: detaches by itself, not manifestation
    /// tolerant, can download and upload, 255 ms detach timeout, 2048-byte transfers.
    open spec fn capability_set(&self) -> DfuCapabilities {
        default_capabilities()
    }

    /// The capability set of the device. It is read once, when the class is created. An impl
    /// that keeps the default [`DfuRuntimeOps::capability_set`] returns
    /// `DfuCapabilities::default()`.
    fn capabilities(&self) -> (r: DfuCapabilities)
        ensures
            r == self.capability_set(),
    ;
}

/// Implementation of the DFU run-time class.
///
/// When a DFU_DETACH request is accepted by [`DfuRuntimeOps::allow`], the class waits for a USB
/// reset or for the timeout and then calls [`DfuRuntimeOps::detach`].
pub struct DfuRuntimeClass<T: DfuRuntimeOps> {
    ops: T,
    iface: u8,
    caps: DfuCapabilities,
    timeout: Option<u16>,
    state: DfuState,
    detaches: Ghost<nat>,
}

impl<T: DfuRuntimeOps> DfuRuntimeClass<T> {
    /// The device-specific operations.
    pub closed spec fn spec_ops(&self) -> T {
        self.ops
    }

    /// The interface number of the class.
    pub closed spec fn spec_interface(&self) -> u8 {
        self.iface
    }

    /// The capability set, read at creation.
    pub closed spec fn spec_capabilities(&self) -> DfuCapabilities {
        self.caps
    }

    /// The pending detach timeout in milliseconds, if a countdown runs.
    pub closed spec fn spec_pending(&self) -> Option<u16> {
        self.timeout
    }

    /// The DFU state.
    pub closed spec fn spec_state(&self) -> DfuState {
        self.state
    }

    /// How many times this class has called [`DfuRuntimeOps::detach`].
    pub closed spec fn detach_count(&self) -> nat {
        self.detaches@
    }

    /// A pending timeout comes only with the `AppDetach` state, and `AppDetach` without a
    /// pending timeout only once the class has switched to DFU mode.
    pub open spec fn well_formed(&self) -> bool {
        &&& self.spec_pending() is Some ==> self.spec_state() == DfuState::AppDetach
        &&& self.spec_state() == DfuState::AppDetach && self.spec_pending() is None
            ==> self.detach_count() > 0
    }

    /// `next` is this class after advancing time by `elapsed` milliseconds: the pending timeout
    /// counts down; when it runs out the class switches to DFU mode if it detaches by itself,
    /// and falls back to `AppIdle` otherwise.
    pub open spec fn ticked_to(&self, next: Self, elapsed: u16) -> bool {
        let fires = tick_fires(self.spec_pending(), elapsed, self.spec_capabilities().will_detach);
        let lapses = tick_lapses(self.spec_pending(), elapsed, self.spec_capabilities().will_detach);
        &&& next.spec_pending() == tick_pending(self.spec_pending(), elapsed)
        &&& next.detach_count() == self.detach_count() + if fires {
            1nat
        } else {
            0nat
        }
        &&& !fires ==> next.spec_ops() == self.spec_ops()
        &&& next.spec_state() == if lapses {
            DfuState::AppIdle
        } else {
            self.spec_state()
        }
        &&& next.spec_interface() == self.spec_interface()
        &&& next.spec_capabilities() == self.spec_capabilities()
    }

    /// Creates the class on interface `iface` with the given device-specific operations; the
    /// capability set is read from them once, here.
    pub fn new(iface: u8, ops: T) -> (r: Self)
        ensures
            r.spec_ops() == ops,
            r.spec_interface() == iface,
            r.spec_capabilities() == ops.capability_set(),
            r.spec_state() == DfuState::AppIdle,
            r.spec_pending() is None,
            r.detach_count() == 0,
            r.well_formed(),
    {
        let caps = ops.capabilities();
        DfuRuntimeClass {
            ops,
            iface,
            caps,
            timeout: None,
            state: DfuState::AppIdle,
            detaches: Ghost(0),
        }
    }

    /// Advances time by `elapsed_time_ms` milliseconds.
    ///
    /// Should be called regularly with the time elapsed since the previous call. A pending
    /// timeout counts down, saturating at zero; at zero it is cleared and, when the device
    /// detaches by itself, [`DfuRuntimeOps::detach`] is called; otherwise the class falls back
    /// to `AppIdle`.
    pub fn tick(&mut self, elapsed_time_ms: u16)
        requires
            old(self).well_formed(),
        ensures
            old(self).ticked_to(*final(self), elapsed_time_ms),
            final(self).well_formed(),
    {
        if let Some(timeout) = self.timeout {
            let new = timeout.saturating_sub(elapsed_time_ms);
            if new == 0 {
                self.timeout = None;
                if self.caps.will_detach {
                    self.ops.detach();
                    self.detaches = Ghost(self.detaches@ + 1);
                } else {
                    self.state = DfuState::AppIdle;
                }
            } else {
                self.timeout = Some(new);
            }
        }
    }

    /// Handles a USB bus reset.
    ///
    /// When the device waits for the host's reset (`will_detach` false) and a timeout is
    /// pending, the timeout is cleared and [`DfuRuntimeOps::detach`] is called; otherwise
    /// nothing happens.
    pub fn reset(&mut self)
        requires
            old(self).well_formed(),
        ensures
            reset_fires(old(self).spec_pending(), old(self).spec_capabilities().will_detach) ==> {
                &&& final(self).spec_pending() is None
                &&& final(self).detach_count() == old(self).detach_count() + 1
            },
            !reset_fires(old(self).spec_pending(), old(self).spec_capabilities().will_detach)
                ==> {
                &&& final(self).spec_pending() == old(self).spec_pending()
                &&& final(self).detach_count() == old(self).detach_count()
                &&& final(self).spec_ops() == old(self).spec_ops()
            },
            final(self).spec_state() == old(self).spec_state(),
            final(self).spec_interface() == old(self).spec_interface(),
            final(self).spec_capabilities() == old(self).spec_capabilities(),
            final(self).well_formed(),
    {
        if !self.caps.will_detach && self.timeout.is_some() {
            self.timeout = None;
            self.ops.detach();
            self.detaches = Ghost(self.detaches@ + 1);
        }
    }

    /// Answers a device-to-host control request.
    ///
    /// A request that is not a class request to this interface is ignored. DFU_GETSTATUS is
    /// answered with the status record; any other request is rejected.
    pub fn control_in(&self, req: &ControlRequest) -> (r: InResponse)
        ensures
            !addressed_to(*req, self.spec_interface()) ==> r is Ignore,
            addressed_to(*req, self.spec_interface()) && req.request == DFU_REQ_GETSTATUS ==> (
            r matches InResponse::Accept(bytes) && bytes@ == status_record(self.spec_state())),
            addressed_to(*req, self.spec_interface()) && req.request != DFU_REQ_GETSTATUS
                ==> r is Reject,
    {
        if !(req.request_type == RequestType::Class && req.recipient == Recipient::Interface
            && req.index == self.iface as u16) {
            return InResponse::Ignore;
        }
        if req.request == DFU_REQ_GETSTATUS {
            let status: [u8; 6] = [DFU_STATUS_OK, 0, 0, 0, self.state.code(), 0];
            assert(status@ =~= status_record(self.state));
            InResponse::Accept(status)
        } else {
            InResponse::Reject
        }
    }

    /// Concludes a DFU_DETACH request on the decision of [`DfuRuntimeOps::allow`].
    ///
    /// `Some(t)` accepts the request: the state becomes `AppDetach` and `t` milliseconds are
    /// counted down. `None` rejects it and changes nothing.
    pub fn resolve_detach(&mut self, allowed: Option<u16>) -> (r: OutResponse)
        requires
            old(self).well_formed(),
        ensures
            allowed is Some ==> {
                &&& r is Accept
                &&& final(self).spec_pending() == allowed
                &&& final(self).spec_state() == DfuState::AppDetach
            },
            allowed is None ==> {
                &&& r is Reject
                &&& final(self).spec_pending() == old(self).spec_pending()
                &&& final(self).spec_state() == old(self).spec_state()
            },
            final(self).spec_ops() == old(self).spec_ops(),
            final(self).detach_count() == old(self).detach_count(),
            final(self).spec_interface() == old(self).spec_interface(),
            final(self).spec_capabilities() == old(self).spec_capabilities(),
            final(self).well_formed(),
    {
        match allowed {
            Some(timeout) => {
                self.state = DfuState::AppDetach;
                self.timeout = Some(timeout);
                OutResponse::Accept
            },
            None => OutResponse::Reject,
        }
    }

    /// Answers a host-to-device control request.
    ///
    /// A request that is not a class request to this interface is ignored and changes
    /// nothing. DFU_DETACH asks [`DfuRuntimeOps::allow`] with the request's value and is then
    /// concluded as [`DfuRuntimeClass::resolve_detach`] says; any other request is rejected
    /// and changes nothing.
    pub fn control_out(&mut self, req: &ControlRequest) -> (r: OutResponse)
        requires
            old(self).well_formed(),
        ensures
            !(addressed_to(*req, old(self).spec_interface()) && req.request == DFU_REQ_DETACH)
                ==> {
                &&& *final(self) == *old(self)
                &&& r == if addressed_to(*req, old(self).spec_interface()) {
                    OutResponse::Reject
                } else {
                    OutResponse::Ignore
                }
            },
            addressed_to(*req, old(self).spec_interface()) && req.request == DFU_REQ_DETACH
                ==> match old(self).spec_ops().allow_decision(req.value) {
                Some(t) => {
                    &&& r == OutResponse::Accept
                    &&& final(self).spec_pending() == Some(t)
                    &&& final(self).spec_state() == DfuState::AppDetach
                },
                None => {
                    &&& r == OutResponse::Reject
                    &&& final(self).spec_pending() == old(self).spec_pending()
                    &&& final(self).spec_state() == old(self).spec_state()
                },
            },
            final(self).detach_count() == old(self).detach_count(),
            final(self).spec_interface() == old(self).spec_interface(),
            final(self).spec_capabilities() == old(self).spec_capabilities(),
            final(self).well_formed(),
    {
        if !(req.request_type == RequestType::Class && req.recipient == Recipient::Interface
            && req.index == self.iface as u16) {
            return OutResponse::Ignore;
        }
        if req.request == DFU_REQ_DETACH {
            let allowed = self.ops.allow(req.value);
            self.resolve_detach(allowed)
        } else {
            OutResponse::Reject
        }
    }

    /// The device-specific operations.
    pub fn ops(&self) -> (r: &T)
        ensures
            *r == self.spec_ops(),
    {
        &self.ops
    }

    /// The device-specific operations, for changing them in place.
    pub fn ops_mut(&mut self) -> (r: &mut T)
        ensures
            *r == old(self).spec_ops(),
            final(self).spec_ops() == *final(r),
            final(self).spec_pending() == old(self).spec_pending(),
            final(self).spec_state() == old(self).spec_state(),
            final(self).detach_count() == old(self).detach_count(),
            final(self).spec_interface() == old(self).spec_interface(),
            final(self).spec_capabilities() == old(self).spec_capabilities(),
    {
        &mut self.ops
    }

    /// The interface number of the class.
    pub fn interface(&self) -> (r: u8)
        ensures
            r == self.spec_interface(),
    {
        self.iface
    }

    /// The capability set, read from the operations at creation.
    pub fn capabilities(&self) -> (r: DfuCapabilities)
        ensures
            r == self.spec_capabilities(),
    {
        self.caps
    }

    /// The current DFU state.
    pub fn state(&self) -> (r: DfuState)
        ensures
            r == self.spec_state(),
    {
        self.state
    }

    /// The pending detach timeout in milliseconds, if a countdown runs.
    pub fn pending_timeout(&self) -> (r: Option<u16>)
        ensures
            r == self.spec_pending(),
    {
        self.timeout
    }
}


/// `runs` is what the class goes through on a run of [`DfuRuntimeClass::tick`] calls with the
/// elapsed times `steps`, with no other call in between.
pub open spec fn ticks_through<T: DfuRuntimeOps>(
    runs: Seq<DfuRuntimeClass<T>>,
    steps: Seq<u16>,
) -> bool {
    &&& runs.len() == steps.len() + 1
    &&& forall|i: int|
        0 <= i < steps.len() ==> #[trigger] runs[i].ticked_to(runs[i + 1], steps[i])
}

proof fn lemma_ticks_through_prefix<T: DfuRuntimeOps>(
    runs: Seq<DfuRuntimeClass<T>>,
    steps: Seq<u16>,
)
    requires
        ticks_through(runs, steps),
        steps.len() > 0,
    ensures
        ticks_through(runs.drop_last(), steps.drop_last()),
        runs[steps.len() - 1].ticked_to(runs[steps.len() as int], steps.last()),
{
    let pre_runs = runs.drop_last();
    let prefix = steps.drop_last();
    assert forall|i: int| 0 <= i < prefix.len() implies #[trigger] pre_runs[i].ticked_to(
        pre_runs[i + 1],
        prefix[i],
    ) by {
        assert(runs[i].ticked_to(runs[i + 1], steps[i]));
    }
    assert(runs[steps.len() - 1].ticked_to(runs[steps.len() - 1 + 1], steps[steps.len() - 1]));
}

/// A countdown of `t` milliseconds that runs for less than `t` in all never switches to DFU
/// mode: `t` minus the elapsed time stays pending, and the state and the operations are as
/// they were.
pub proof fn lemma_ticks_short_of_timeout<T: DfuRuntimeOps>(
    runs: Seq<DfuRuntimeClass<T>>,
    steps: Seq<u16>,
    t: u16,
)
    requires
        ticks_through(runs, steps),
        runs[0].spec_pending() == Some(t),
        total_elapsed(steps) < t,
    ensures
        t - total_elapsed(steps) > 0,
        runs.last().spec_pending() == Some((t - total_elapsed(steps)) as u16),
        runs.last().detach_count() == runs[0].detach_count(),
        runs.last().spec_state() == runs[0].spec_state(),
        runs.last().spec_ops() == runs[0].spec_ops(),
        runs.last().spec_capabilities() == runs[0].spec_capabilities(),
    decreases steps.len(),
{
    lemma_total_elapsed_nonneg(steps);
    if steps.len() > 0 {
        lemma_ticks_through_prefix(runs, steps);
        lemma_total_elapsed_nonneg(steps.drop_last());
        lemma_ticks_short_of_timeout(runs.drop_last(), steps.drop_last(), t);
    }
}

/// A countdown of `t` milliseconds that runs, in one or more ticks, for exactly `t` in all
/// clears the pending timeout; it switches to DFU mode exactly once when the device detaches
/// by itself, and otherwise never, falling back to `AppIdle`.
pub proof fn lemma_ticks_to_timeout<T: DfuRuntimeOps>(
    runs: Seq<DfuRuntimeClass<T>>,
    steps: Seq<u16>,
    t: u16,
)
    requires
        ticks_through(runs, steps),
        runs[0].spec_pending() == Some(t),
        total_elapsed(steps) == t,
        steps.len() > 0,
    ensures
        runs.last().spec_pending() is None,
        runs.last().detach_count() == runs[0].detach_count() + if runs[0].spec_capabilities(
        ).will_detach {
            1nat
        } else {
            0nat
        },
        runs.last().spec_capabilities() == runs[0].spec_capabilities(),
        runs[0].spec_capabilities().will_detach ==> runs.last().spec_state()
            == runs[0].spec_state(),
        !runs[0].spec_capabilities().will_detach ==> runs.last().spec_state()
            == DfuState::AppIdle,
    decreases steps.len(),
{
    let prefix = steps.drop_last();
    lemma_ticks_through_prefix(runs, steps);
    lemma_total_elapsed_nonneg(prefix);
    if total_elapsed(prefix) < t {
        lemma_ticks_short_of_timeout(runs.drop_last(), prefix, t);
    } else if prefix.len() > 0 {
        lemma_ticks_to_timeout(runs.drop_last(), prefix, t);
    }
}

} // verus!
