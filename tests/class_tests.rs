use usbd_dfu_rt::class::{
    ControlRequest, DfuCapabilities, DfuState, InResponse, OutResponse, Recipient, RequestType,
    DFU_REQ_DETACH, DFU_REQ_GETSTATUS,
};
use usbd_dfu_rt::{DfuRuntimeClass, DfuRuntimeOps};

struct Board {
    caps: DfuCapabilities,
    reject: bool,
    clamp: Option<u16>,
    detached: u32,
}

impl Board {
    fn new(caps: DfuCapabilities) -> Board {
        Board { caps, reject: false, clamp: None, detached: 0 }
    }
}

impl DfuRuntimeOps for Board {
    fn detach(&mut self) {
        self.detached += 1;
    }

    fn allow(&mut self, timeout: u16) -> Option<u16> {
        if self.reject {
            None
        } else {
            match self.clamp {
                Some(m) if timeout > m => Some(m),
                _ => Some(timeout),
            }
        }
    }

    fn capabilities(&self) -> DfuCapabilities {
        self.caps
    }
}

struct Plain;

impl DfuRuntimeOps for Plain {
    fn detach(&mut self) {}

    fn allow(&mut self, timeout: u16) -> Option<u16> {
        Some(timeout)
    }

    fn capabilities(&self) -> DfuCapabilities {
        DfuCapabilities::default()
    }
}

fn caps(will_detach: bool) -> DfuCapabilities {
    DfuCapabilities { will_detach, ..DfuCapabilities::default() }
}

fn class_req(request: u8, value: u16, index: u16) -> ControlRequest {
    ControlRequest {
        request_type: RequestType::Class,
        recipient: Recipient::Interface,
        request,
        value,
        index,
    }
}

#[test]
fn default_capabilities_are_the_documented_ones() {
    let c = DfuCapabilities::default();
    assert!(c.will_detach);
    assert!(!c.manifestation_tolerant);
    assert!(c.can_download);
    assert!(c.can_upload);
    assert_eq!(c.detach_timeout_ms, 255);
    assert_eq!(c.max_transfer_size, 2048);
    let class = DfuRuntimeClass::new(0, Plain);
    assert_eq!(class.capabilities(), c);
}

#[test]
fn attribute_bits_follow_each_flag() {
    for bits in 0u8..16 {
        let c = DfuCapabilities {
            will_detach: bits & 8 != 0,
            manifestation_tolerant: bits & 4 != 0,
            can_download: bits & 2 != 0,
            can_upload: bits & 1 != 0,
            detach_timeout_ms: 0,
            max_transfer_size: 0,
        };
        assert_eq!(c.dfu_bm_attributes(), bits);
    }
}

#[test]
fn attribute_upload_bit_is_independent_of_download() {
    let c = DfuCapabilities { can_download: true, can_upload: false, ..DfuCapabilities::default() };
    assert_eq!(c.dfu_bm_attributes(), 0b1010);
    let c = DfuCapabilities { can_download: false, can_upload: true, ..DfuCapabilities::default() };
    assert_eq!(c.dfu_bm_attributes(), 0b1001);
    assert_eq!(DfuCapabilities::default().dfu_bm_attributes(), 0b1011);
}

#[test]
fn functional_descriptor_bytes() {
    assert_eq!(
        DfuCapabilities::default().functional_descriptor(),
        [0x0b, 0xff, 0x00, 0x00, 0x08, 0x1a, 0x01]
    );
    let c = DfuCapabilities {
        will_detach: false,
        manifestation_tolerant: true,
        can_download: false,
        can_upload: true,
        detach_timeout_ms: 0x1234,
        max_transfer_size: 64,
    };
    assert_eq!(c.functional_descriptor(), [0x05, 0x34, 0x12, 0x40, 0x00, 0x1a, 0x01]);
}

#[test]
fn new_class_is_idle() {
    let class = DfuRuntimeClass::new(3, Board::new(caps(true)));
    assert_eq!(class.interface(), 3);
    assert_eq!(class.state(), DfuState::AppIdle);
    assert_eq!(class.pending_timeout(), None);
    assert_eq!(class.ops().detached, 0);
}

#[test]
fn getstatus_reports_six_bytes() {
    let mut class = DfuRuntimeClass::new(1, Board::new(caps(true)));
    match class.control_in(&class_req(DFU_REQ_GETSTATUS, 0, 1)) {
        InResponse::Accept(b) => assert_eq!(b, [0, 0, 0, 0, 0, 0]),
        other => panic!("unexpected {:?}", other),
    }
    assert_eq!(class.control_out(&class_req(DFU_REQ_DETACH, 100, 1)), OutResponse::Accept);
    match class.control_in(&class_req(DFU_REQ_GETSTATUS, 0, 1)) {
        InResponse::Accept(b) => {
            assert_eq!(b.len(), 6);
            assert_eq!(&b[1..4], &[0, 0, 0]);
            assert_eq!(b[4], 1);
            assert_eq!(b[5], 0);
        }
        other => panic!("unexpected {:?}", other),
    }
}

#[test]
fn other_in_request_is_rejected() {
    let class = DfuRuntimeClass::new(1, Board::new(caps(true)));
    assert!(matches!(class.control_in(&class_req(0x05, 0, 1)), InResponse::Reject));
}

#[test]
fn other_out_request_is_rejected() {
    let mut class = DfuRuntimeClass::new(1, Board::new(caps(true)));
    assert_eq!(class.control_out(&class_req(0x01, 0, 1)), OutResponse::Reject);
    assert_eq!(class.state(), DfuState::AppIdle);
    assert_eq!(class.pending_timeout(), None);
}

#[test]
fn rejected_detach_leaves_idle() {
    let mut board = Board::new(caps(true));
    board.reject = true;
    let mut class = DfuRuntimeClass::new(0, board);
    assert_eq!(class.control_out(&class_req(DFU_REQ_DETACH, 50, 0)), OutResponse::Reject);
    assert_eq!(class.state(), DfuState::AppIdle);
    assert_eq!(class.pending_timeout(), None);
}

#[test]
fn resolve_detach_on_each_decision() {
    let mut class = DfuRuntimeClass::new(0, Plain);
    assert_eq!(class.resolve_detach(None), OutResponse::Reject);
    assert_eq!(class.state(), DfuState::AppIdle);
    assert_eq!(class.resolve_detach(Some(7)), OutResponse::Accept);
    assert_eq!(class.state(), DfuState::AppDetach);
    assert_eq!(class.pending_timeout(), Some(7));
}

#[test]
fn allow_may_clamp_the_timeout() {
    let mut board = Board::new(caps(true));
    board.clamp = Some(20);
    let mut class = DfuRuntimeClass::new(0, board);
    assert_eq!(class.control_out(&class_req(DFU_REQ_DETACH, 1000, 0)), OutResponse::Accept);
    assert_eq!(class.pending_timeout(), Some(20));
}

#[test]
fn countdown_to_exactly_t_detaches_once_when_will_detach() {
    let mut class = DfuRuntimeClass::new(0, Board::new(caps(true)));
    class.control_out(&class_req(DFU_REQ_DETACH, 30, 0));
    for step in [10u16, 0, 15, 5] {
        class.tick(step);
    }
    assert_eq!(class.ops().detached, 1);
    assert_eq!(class.pending_timeout(), None);
    class.tick(10);
    assert_eq!(class.ops().detached, 1);
}

#[test]
fn countdown_to_exactly_t_never_detaches_without_will_detach() {
    let mut class = DfuRuntimeClass::new(0, Board::new(caps(false)));
    class.control_out(&class_req(DFU_REQ_DETACH, 30, 0));
    for step in [10u16, 20] {
        class.tick(step);
    }
    assert_eq!(class.ops().detached, 0);
    assert_eq!(class.pending_timeout(), None);
    assert_eq!(class.state(), DfuState::AppIdle);
    match class.control_in(&class_req(DFU_REQ_GETSTATUS, 0, 0)) {
        InResponse::Accept(b) => assert_eq!(b, [0, 0, 0, 0, 0, 0]),
        other => panic!("unexpected {:?}", other),
    }
    class.reset();
    assert_eq!(class.ops().detached, 0);
}

#[test]
fn expired_countdown_stays_detached_with_will_detach() {
    let mut class = DfuRuntimeClass::new(0, Board::new(caps(true)));
    class.control_out(&class_req(DFU_REQ_DETACH, 4, 0));
    class.tick(4);
    assert_eq!(class.ops().detached, 1);
    assert_eq!(class.state(), DfuState::AppDetach);
}

#[test]
fn zero_timeout_expires_on_first_tick() {
    let mut class = DfuRuntimeClass::new(0, Board::new(caps(true)));
    assert_eq!(class.control_out(&class_req(DFU_REQ_DETACH, 0, 0)), OutResponse::Accept);
    assert_eq!(class.pending_timeout(), Some(0));
    class.tick(0);
    assert_eq!(class.ops().detached, 1);
    assert_eq!(class.pending_timeout(), None);
}

#[test]
fn countdown_short_of_t_leaves_the_rest_pending() {
    let mut class = DfuRuntimeClass::new(0, Board::new(caps(true)));
    class.control_out(&class_req(DFU_REQ_DETACH, 30, 0));
    for step in [10u16, 7, 0] {
        class.tick(step);
    }
    assert_eq!(class.ops().detached, 0);
    assert_eq!(class.pending_timeout(), Some(13));
}

#[test]
fn tick_saturates_past_zero() {
    let mut class = DfuRuntimeClass::new(0, Board::new(caps(true)));
    class.control_out(&class_req(DFU_REQ_DETACH, 5, 0));
    class.tick(u16::MAX);
    assert_eq!(class.pending_timeout(), None);
    assert_eq!(class.ops().detached, 1);
}

#[test]
fn tick_without_pending_does_nothing() {
    let mut class = DfuRuntimeClass::new(0, Board::new(caps(true)));
    class.tick(100);
    assert_eq!(class.ops().detached, 0);
    assert_eq!(class.state(), DfuState::AppIdle);
}

#[test]
fn reset_detaches_when_waiting_for_host() {
    let mut class = DfuRuntimeClass::new(0, Board::new(caps(false)));
    class.reset();
    assert_eq!(class.ops().detached, 0);
    class.control_out(&class_req(DFU_REQ_DETACH, 40, 0));
    class.reset();
    assert_eq!(class.ops().detached, 1);
    assert_eq!(class.pending_timeout(), None);
    class.reset();
    assert_eq!(class.ops().detached, 1);
}

#[test]
fn reset_is_noop_with_will_detach() {
    let mut class = DfuRuntimeClass::new(0, Board::new(caps(true)));
    class.reset();
    class.control_out(&class_req(DFU_REQ_DETACH, 40, 0));
    class.reset();
    assert_eq!(class.ops().detached, 0);
    assert_eq!(class.pending_timeout(), Some(40));
    assert_eq!(class.state(), DfuState::AppDetach);
}

#[test]
fn unaddressed_requests_change_nothing() {
    let mut class = DfuRuntimeClass::new(2, Board::new(caps(true)));
    let wrong_index = class_req(DFU_REQ_DETACH, 10, 3);
    let mut vendor = class_req(DFU_REQ_DETACH, 10, 2);
    vendor.request_type = RequestType::Vendor;
    let mut device = class_req(DFU_REQ_DETACH, 10, 2);
    device.recipient = Recipient::Device;
    for req in [wrong_index, vendor, device] {
        assert_eq!(class.control_out(&req), OutResponse::Ignore);
        assert!(matches!(class.control_in(&req), InResponse::Ignore));
        assert_eq!(class.state(), DfuState::AppIdle);
        assert_eq!(class.pending_timeout(), None);
    }
    let mut get = class_req(DFU_REQ_GETSTATUS, 0, 2);
    get.request_type = RequestType::Standard;
    assert!(matches!(class.control_in(&get), InResponse::Ignore));
}

#[test]
fn default_scenario_detaches_on_last_millisecond() {
    let mut class = DfuRuntimeClass::new(0, Board::new(DfuCapabilities::default()));
    assert_eq!(class.control_out(&class_req(DFU_REQ_DETACH, 255, 0)), OutResponse::Accept);
    assert_eq!(class.state(), DfuState::AppDetach);
    for _ in 0..254 {
        class.tick(1);
        assert_eq!(class.ops().detached, 0);
    }
    class.tick(1);
    assert_eq!(class.ops().detached, 1);
    assert_eq!(class.pending_timeout(), None);
}

#[test]
fn reset_scenario_detaches_without_waiting() {
    let mut class = DfuRuntimeClass::new(0, Board::new(caps(false)));
    assert_eq!(class.control_out(&class_req(DFU_REQ_DETACH, 10, 0)), OutResponse::Accept);
    for _ in 0..5 {
        class.tick(1);
    }
    assert_eq!(class.pending_timeout(), Some(5));
    class.reset();
    assert_eq!(class.ops().detached, 1);
    assert_eq!(class.pending_timeout(), None);
}

#[test]
fn ops_mut_reaches_the_operations() {
    let mut class = DfuRuntimeClass::new(0, Board::new(caps(true)));
    class.ops_mut().reject = true;
    assert_eq!(class.control_out(&class_req(DFU_REQ_DETACH, 9, 0)), OutResponse::Reject);
}
