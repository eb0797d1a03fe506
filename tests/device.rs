use virtio_rdma::device::{
    response_bytes, validate_chain, ActivateError, RdmaQueueError, VirtioRdma, RDMA_NUM_QUEUES,
};
use virtio_rdma::queue::{Descriptor, DescriptorChain, Queue, QueueError, UsedElement, MAX_QUEUE_SIZE};
use virtio_rdma::wire::{
    dispatch, u32_from_le_bytes, u32_to_le_bytes, RdmaRequest, RdmaResponse,
    RDMA_OPCODE_CREATE_QP, RDMA_STATUS_ERR, RDMA_STATUS_OK,
};
use vm_memory::{Bytes, GuestAddress, GuestMemoryMmap};
use vmm_sys_util::eventfd::EventFd;

fn default_mem() -> GuestMemoryMmap {
    GuestMemoryMmap::from_ranges(&[(GuestAddress(0), 0x10000)]).unwrap()
}

fn activated_device(mem: &GuestMemoryMmap) -> VirtioRdma {
    let mut device = VirtioRdma::new("rdma0".to_string()).unwrap();
    let irq = EventFd::new(libc::EFD_NONBLOCK).unwrap();
    device.activate(mem.clone(), irq).unwrap();
    device
}

fn desc(addr: u64, len: u32, write_only: bool) -> Descriptor {
    Descriptor { addr, len, write_only }
}

fn read_status(mem: &GuestMemoryMmap, addr: u64) -> u32 {
    let mut buf = [0u8; 4];
    mem.read_slice(&mut buf, GuestAddress(addr)).unwrap();
    RdmaResponse::from_le_bytes(&buf).status
}

fn notify_and_process(device: &mut VirtioRdma) {
    device.queue_events()[0].write(1).unwrap();
    device.process_queue_event();
}

#[test]
fn test_rdma_create_qp() {
    let mem = default_mem();
    let mut device = activated_device(&mem);

    let req_addr = 0x1000 + 0x100;
    let resp_addr = 0x1000 + 0x200;
    let request = RdmaRequest { opcode: RDMA_OPCODE_CREATE_QP, qp_id: 7 };
    mem.write_slice(&request.to_le_bytes(), GuestAddress(req_addr)).unwrap();
    mem.write_slice(&RdmaResponse { status: 0xdead_beef }.to_le_bytes(), GuestAddress(resp_addr))
        .unwrap();

    device.queues_mut()[0].add_available(DescriptorChain::new(
        0,
        vec![desc(req_addr, 8, false), desc(resp_addr, 4, true)],
    ));
    notify_and_process(&mut device);

    assert_eq!(read_status(&mem, resp_addr), RDMA_STATUS_OK);
    assert_eq!(device.queues()[0].next_used(), 1);
}

#[test]
fn end_to_end_create_qp_bytes() {
    let mem = default_mem();
    let mut device = activated_device(&mem);
    mem.write_slice(&[0x01, 0, 0, 0, 0x07, 0, 0, 0], GuestAddress(0x2000)).unwrap();
    mem.write_slice(&[0xEF, 0xBE, 0xAD, 0xDE], GuestAddress(0x3000)).unwrap();
    device.queues_mut()[0].add_available(DescriptorChain::new(
        3,
        vec![desc(0x2000, 8, false), desc(0x3000, 16, true)],
    ));
    let before = device.queues()[0].next_used();
    notify_and_process(&mut device);
    let mut out = [0xFFu8; 4];
    mem.read_slice(&mut out, GuestAddress(0x3000)).unwrap();
    assert_eq!(out, [0, 0, 0, 0]);
    assert_eq!(device.queues()[0].next_used(), before + 1);
    assert_eq!(device.queues()[0].used_ring(), &vec![UsedElement { id: 3, len: 4 }]);
}

#[test]
fn unknown_opcode_gets_err_status() {
    let mem = default_mem();
    let mut device = activated_device(&mem);
    let request = RdmaRequest { opcode: 42, qp_id: 1 };
    mem.write_slice(&request.to_le_bytes(), GuestAddress(0x2000)).unwrap();
    device.queues_mut()[0].add_available(DescriptorChain::new(
        0,
        vec![desc(0x2000, 8, false), desc(0x3000, 4, true)],
    ));
    notify_and_process(&mut device);
    assert_eq!(read_status(&mem, 0x3000), RDMA_STATUS_ERR);
    assert_eq!(device.queues()[0].used_ring(), &vec![UsedElement { id: 0, len: 4 }]);
}

#[test]
fn malformed_chains_complete_empty_and_draining_continues() {
    let mem = default_mem();
    let mut device = activated_device(&mem);
    let poison = [0xEF, 0xBE, 0xAD, 0xDE];
    let request = RdmaRequest { opcode: RDMA_OPCODE_CREATE_QP, qp_id: 9 };
    mem.write_slice(&request.to_le_bytes(), GuestAddress(0x2000)).unwrap();
    for addr in [0x3000u64, 0x3100, 0x3200, 0x3300, 0x3400, 0x3500] {
        mem.write_slice(&poison, GuestAddress(addr)).unwrap();
    }
    let chains = vec![
        vec![desc(0x2000, 8, true), desc(0x3000, 4, true)],
        vec![desc(0x2000, 7, false), desc(0x3100, 4, true)],
        vec![desc(0x2000, 8, false)],
        vec![desc(0x2000, 8, false), desc(0x3300, 4, false)],
        vec![desc(0x2000, 8, false), desc(0x3400, 3, true)],
        vec![desc(0x2000, 8, false), desc(0x3500, 4, true)],
    ];
    for (i, c) in chains.into_iter().enumerate() {
        device.queues_mut()[0].add_available(DescriptorChain::new(i as u16, c));
    }
    notify_and_process(&mut device);
    let used = device.queues()[0].used_ring().clone();
    assert_eq!(
        used,
        vec![
            UsedElement { id: 0, len: 0 },
            UsedElement { id: 1, len: 0 },
            UsedElement { id: 2, len: 0 },
            UsedElement { id: 3, len: 0 },
            UsedElement { id: 4, len: 0 },
            UsedElement { id: 5, len: 4 },
        ]
    );
    for addr in [0x3000u64, 0x3100, 0x3300, 0x3400] {
        let mut out = [0u8; 4];
        mem.read_slice(&mut out, GuestAddress(addr)).unwrap();
        assert_eq!(out, poison);
    }
    assert_eq!(read_status(&mem, 0x3500), RDMA_STATUS_OK);
    assert_eq!(device.queues()[0].next_used(), 6);
    assert_eq!(device.queues()[0].pending_len(), 0);
}

#[test]
fn unreadable_request_memory_completes_empty() {
    let mem = default_mem();
    let mut device = activated_device(&mem);
    device.queues_mut()[0].add_available(DescriptorChain::new(
        1,
        vec![desc(0x20000, 8, false), desc(0x3000, 4, true)],
    ));
    notify_and_process(&mut device);
    assert_eq!(device.queues()[0].used_ring(), &vec![UsedElement { id: 1, len: 0 }]);
}

#[test]
fn validate_chain_reports_each_fault() {
    let ok = DescriptorChain::new(0, vec![desc(0x10, 8, false), desc(0x20, 4, true)]);
    assert_eq!(validate_chain(&ok).unwrap(), (0x10, 0x20));
    let cases: Vec<(Vec<Descriptor>, fn(&RdmaQueueError) -> bool)> = vec![
        (vec![], |e| matches!(e, RdmaQueueError::DescriptorChainTooShort)),
        (vec![desc(0, 8, true), desc(0, 4, true)], |e| {
            matches!(e, RdmaQueueError::WriteOnlyDescriptor)
        }),
        (vec![desc(0, 7, false), desc(0, 4, true)], |e| {
            matches!(e, RdmaQueueError::DescriptorTooShort)
        }),
        (vec![desc(0, 8, false)], |e| matches!(e, RdmaQueueError::DescriptorChainTooShort)),
        (vec![desc(0, 8, false), desc(0, 4, false)], |e| {
            matches!(e, RdmaQueueError::ReadOnlyDescriptor)
        }),
        (vec![desc(0, 8, false), desc(0, 3, true)], |e| {
            matches!(e, RdmaQueueError::DescriptorTooShort)
        }),
    ];
    for (descs, check) in cases {
        let err = validate_chain(&DescriptorChain::new(0, descs)).unwrap_err();
        assert!(check(&err), "unexpected error {err:?}");
    }
}

#[test]
fn response_bytes_follow_opcode() {
    assert_eq!(response_bytes(&[1, 0, 0, 0, 7, 0, 0, 0]), vec![0, 0, 0, 0]);
    assert_eq!(response_bytes(&[2, 0, 0, 0, 7, 0, 0, 0]), vec![1, 0, 0, 0]);
    assert_eq!(response_bytes(&[1, 0, 0, 1, 0, 0, 0, 0]), vec![1, 0, 0, 0]);
}

#[test]
fn wire_records_are_little_endian() {
    let req = RdmaRequest { opcode: 0x0403_0201, qp_id: 0x0807_0605 };
    assert_eq!(req.to_le_bytes(), vec![1, 2, 3, 4, 5, 6, 7, 8]);
    assert_eq!(RdmaRequest::from_le_bytes(&[1, 2, 3, 4, 5, 6, 7, 8]), req);
    assert_eq!(RdmaResponse { status: 0xdead_beef }.to_le_bytes(), vec![0xEF, 0xBE, 0xAD, 0xDE]);
    assert_eq!(u32_to_le_bytes(u32::MAX), vec![0xFF; 4]);
    assert_eq!(u32_from_le_bytes(&[9, 0xEF, 0xBE, 0xAD, 0xDE], 1), 0xdead_beef);
    assert_eq!(dispatch(&RdmaRequest { opcode: RDMA_OPCODE_CREATE_QP, qp_id: 0 }).status, RDMA_STATUS_OK);
    assert_eq!(dispatch(&RdmaRequest { opcode: 0, qp_id: 0 }).status, RDMA_STATUS_ERR);
}

#[test]
fn new_device_is_inactive_with_one_queue() {
    let device = VirtioRdma::new("dev".to_string()).unwrap();
    assert_eq!(device.id(), "dev");
    assert!(!device.is_activated());
    assert_eq!(device.queues().len(), RDMA_NUM_QUEUES);
    assert_eq!(device.queues()[0].size(), MAX_QUEUE_SIZE);
    assert_eq!(device.queue_events().len(), RDMA_NUM_QUEUES);
    assert_eq!(device.avail_features(), 0);
    assert_eq!(device.acked_features(), 0);
}

#[test]
fn acked_features_are_recorded() {
    let mut device = VirtioRdma::new("dev".to_string()).unwrap();
    device.set_acked_features(0x11);
    assert_eq!(device.acked_features(), 0x11);
    assert_eq!(device.avail_features(), 0);
}

#[test]
fn activation_with_wrong_queue_count_leaves_device_inactive() {
    let mut device = VirtioRdma::new("dev".to_string()).unwrap();
    device.queues_mut().push(Queue::new(MAX_QUEUE_SIZE));
    let irq = EventFd::new(libc::EFD_NONBLOCK).unwrap();
    let err = device.activate(default_mem(), irq).unwrap_err();
    assert!(matches!(err, ActivateError::QueueMismatch { expected: 1, got: 2 }));
    assert!(!device.is_activated());
}

#[test]
fn activation_signals_activate_event() {
    let mem = default_mem();
    let device = activated_device(&mem);
    assert!(device.is_activated());
    assert_eq!(device.activate_event().read().unwrap(), 1);
    assert!(device.interrupt_trigger().read().is_err());
}

#[test]
fn completion_signals_interrupt() {
    let mem = default_mem();
    let mut device = activated_device(&mem);
    mem.write_slice(&[1, 0, 0, 0, 0, 0, 0, 0], GuestAddress(0x2000)).unwrap();
    device.queues_mut()[0].add_available(DescriptorChain::new(
        0,
        vec![desc(0x2000, 8, false), desc(0x3000, 4, true)],
    ));
    notify_and_process(&mut device);
    assert_eq!(device.interrupt_trigger().read().unwrap(), 1);
}

#[test]
fn queue_event_without_notification_leaves_queue() {
    let mem = default_mem();
    let mut device = activated_device(&mem);
    device.queues_mut()[0].add_available(DescriptorChain::new(
        0,
        vec![desc(0x2000, 8, false), desc(0x3000, 4, true)],
    ));
    device.process_queue_event();
    assert_eq!(device.queues()[0].pending_len(), 1);
    assert_eq!(device.queues()[0].next_used(), 0);
}

#[test]
fn queue_add_used_errors() {
    let mut q = Queue::new(2);
    assert_eq!(q.add_used(2, 0), Err(QueueError::DescIndexOutOfBounds(2)));
    assert_eq!(q.add_used(0, 4), Ok(()));
    assert_eq!(q.add_used(1, 4), Ok(()));
    assert_eq!(q.add_used(1, 4), Err(QueueError::UsedRingFull));
    q.advance_used_ring_idx();
    assert_eq!(q.next_used(), 2);
    assert!(q.prepare_kick());
    assert!(!q.prepare_kick());
}

#[test]
fn queue_pops_in_submission_order() {
    let mut q = Queue::new(4);
    assert!(q.pop().is_none());
    q.add_available(DescriptorChain::new(2, vec![]));
    q.add_available(DescriptorChain::new(1, vec![]));
    assert_eq!(q.pop().unwrap().index, 2);
    assert_eq!(q.pop().unwrap().index, 1);
    assert!(q.pop().is_none());
}

#[test]
fn failed_completion_stops_pass_and_later_chains_wait() {
    let mem = default_mem();
    let mut device = activated_device(&mem);
    mem.write_slice(&[1, 0, 0, 0, 0, 0, 0, 0], GuestAddress(0x2000)).unwrap();
    let good = |i: u16| {
        DescriptorChain::new(i, vec![desc(0x2000, 8, false), desc(0x3000, 4, true)])
    };
    device.queues_mut()[0].add_available(good(0));
    device.queues_mut()[0].add_available(good(300));
    device.queues_mut()[0].add_available(good(1));
    notify_and_process(&mut device);
    assert_eq!(device.queues()[0].used_ring(), &vec![UsedElement { id: 0, len: 4 }]);
    assert_eq!(device.queues()[0].next_used(), 1);
    assert_eq!(device.queues()[0].pending_len(), 1);
    assert_eq!(device.queues_mut()[0].pop().unwrap().index, 1);
}

#[test]
fn notification_outcome_decides_the_drain() {
    let mem = default_mem();
    let mut device = activated_device(&mem);
    mem.write_slice(&[1, 0, 0, 0, 0, 0, 0, 0], GuestAddress(0x2000)).unwrap();
    device.queues_mut()[0].add_available(DescriptorChain::new(
        0,
        vec![desc(0x2000, 8, false), desc(0x3000, 4, true)],
    ));
    assert!(!device.on_queue_notification(Err(std::io::Error::other("no event"))));
    assert_eq!(device.queues()[0].pending_len(), 1);
    assert_eq!(device.queues()[0].next_used(), 0);
    assert!(device.on_queue_notification(Ok(1)));
    assert_eq!(device.queues()[0].pending_len(), 0);
    assert_eq!(device.queues()[0].next_used(), 1);
    assert!(!device.handle_queue());
    assert_eq!(device.interrupt_trigger().read().unwrap(), 1);
}
