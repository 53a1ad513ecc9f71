use quantum_os::capability::{AccessCapability, PermissionFlags, QuantumAccessPermission, QuantumPermissionFlags};
use quantum_os::handle::{HandleType, QuantumBackendType, QuantumDeviceHandle, QuantumJobHandle, QuantumJobStatus, ResourceHandle};
use quantum_os::message::{CircuitProgramMessage, GateInstruction, GateType};
use quantum_os::task::{HybridScheduler, ProcessContext, ProcessPriority, QuantumJobContext, QuantumJobPriority};

#[test]
fn test_capability_permissions() {
    let handle = ResourceHandle::new(HandleType::QuantumDevice);
    let cap = AccessCapability::new(&handle, PermissionFlags::read_only());

    assert!(cap.can_read());
    assert!(!cap.can_write());
    assert!(!cap.can_execute());
}

#[test]
fn test_quantum_permissions() {
    let handle = ResourceHandle::new(HandleType::QuantumDevice);
    let qperm = QuantumAccessPermission::new(&handle, PermissionFlags::full(), QuantumPermissionFlags::user_default());

    assert!(qperm.can_submit_circuit());
    assert!(qperm.can_read_measurements());
    assert!(!qperm.can_access_calibration());
}

#[test]
fn test_quantum_device_handle_creation() {
    let device = QuantumDeviceHandle::new_simulator("test_simulator", 4, false);
    assert_eq!(device.number_of_quantum_bits(), 4);
    assert_eq!(device.backend_type(), QuantumBackendType::FullStateVectorSimulator);
}

#[test]
fn test_job_handle_status_transitions() {
    let device = QuantumDeviceHandle::new_simulator("test", 2, false);
    let mut job = QuantumJobHandle::new(&device);
    assert_eq!(job.status(), QuantumJobStatus::Queued);

    job.set_status(QuantumJobStatus::Executing);
    assert_eq!(job.status(), QuantumJobStatus::Executing);
}

#[test]
fn test_circuit_message_creation() {
    let mut circuit = CircuitProgramMessage::new(2);
    circuit.add_gate(GateInstruction {
        gate_type: GateType::HadamardGate,
        target_quantum_bits: vec![0],
        parameter_bits: vec![],
    });
    circuit.add_gate(GateInstruction {
        gate_type: GateType::ControlledNotGate,
        target_quantum_bits: vec![0, 1],
        parameter_bits: vec![],
    });

    assert_eq!(circuit.gate_sequence.len(), 2);
    assert_eq!(circuit.number_of_quantum_bits, 2);
}

#[test]
fn test_hybrid_scheduler_classical() {
    let mut scheduler = HybridScheduler::new(2);

    let p1 = ProcessContext::new("low_priority").with_priority(ProcessPriority::Low);
    let p2 = ProcessContext::new("high_priority").with_priority(ProcessPriority::High);

    scheduler.enqueue_process(p1);
    scheduler.enqueue_process(p2);

    let next = scheduler.dequeue_next_process().unwrap();
    assert_eq!(next.name, "high_priority");
}

#[test]
fn test_hybrid_scheduler_quantum() {
    let mut scheduler = HybridScheduler::new(1);
    let device = QuantumDeviceHandle::new_simulator("test", 2, false);

    let circuit = CircuitProgramMessage::new(2);
    let job = QuantumJobContext::new(&device, 7, circuit);

    scheduler.submit_quantum_job(job);
    assert_eq!(scheduler.quantum_queue_length(), 1);

    let running_job = scheduler.start_next_quantum_job().unwrap();
    assert_eq!(scheduler.running_quantum_jobs_count(), 1);

    scheduler.complete_quantum_job(running_job.job_handle.handle().id());
    assert_eq!(scheduler.running_quantum_jobs_count(), 0);
}

#[test]
fn handle_display_uses_tag_and_uuid() {
    let handle = ResourceHandle::with_id(0x0123456789abcdef0123456789abcdef, HandleType::QuantumJob);
    assert_eq!(handle.to_display_string(), "QJOB:01234567-89ab-cdef-0123-456789abcdef");
}

#[test]
fn expired_capability_grants_nothing() {
    let handle = ResourceHandle::new(HandleType::File);
    let cap = AccessCapability::new(&handle, PermissionFlags::full()).with_expiration(100);
    assert!(cap.can_read_at(99));
    assert!(!cap.can_read_at(100));
    assert!(!cap.can_write_at(150));
    assert!(cap.is_expired());
}

#[test]
fn equal_priority_processes_keep_arrival_order() {
    let mut scheduler = HybridScheduler::new(1);
    scheduler.enqueue_process(ProcessContext::new("a").with_priority(ProcessPriority::Normal));
    scheduler.enqueue_process(ProcessContext::new("b").with_priority(ProcessPriority::Realtime));
    scheduler.enqueue_process(ProcessContext::new("c").with_priority(ProcessPriority::Normal));
    scheduler.enqueue_process(ProcessContext::new("d").with_priority(ProcessPriority::Idle));
    let order: Vec<String> = (0..4).map(|_| scheduler.dequeue_next_process().unwrap().name).collect();
    assert_eq!(order, vec!["b", "a", "c", "d"]);
    assert!(scheduler.dequeue_next_process().is_none());
}

#[test]
fn jobs_start_in_priority_order_one_at_a_time() {
    let mut scheduler = HybridScheduler::new(1);
    let device = QuantumDeviceHandle::new_simulator("sim", 2, false);
    let priorities = [QuantumJobPriority::Background, QuantumJobPriority::Critical, QuantumJobPriority::Normal];
    for p in priorities {
        scheduler.submit_quantum_job(QuantumJobContext::new(&device, 1, CircuitProgramMessage::new(2)).with_priority(p));
    }
    let mut started = Vec::new();
    while let Some(job) = scheduler.start_next_quantum_job() {
        assert!(scheduler.start_next_quantum_job().is_none());
        assert_eq!(job.job_handle.status(), QuantumJobStatus::Executing);
        assert!(job.started_at.is_some());
        started.push(job.priority);
        let done = scheduler.complete_quantum_job(job.job_handle.handle().id()).unwrap();
        assert_eq!(done.job_handle.status(), QuantumJobStatus::Completed);
        assert!(scheduler.complete_quantum_job(job.job_handle.handle().id()).is_none());
    }
    assert_eq!(started, vec![QuantumJobPriority::Critical, QuantumJobPriority::Normal, QuantumJobPriority::Background]);
}

#[test]
fn cancelling_a_queued_job_removes_it_without_starting() {
    let mut scheduler = HybridScheduler::new(1);
    let device = QuantumDeviceHandle::new_simulator("sim", 2, false);
    let first = QuantumJobContext::new(&device, 1, CircuitProgramMessage::new(2));
    let second = QuantumJobContext::new(&device, 1, CircuitProgramMessage::new(2));
    let second_id = second.job_handle.handle().id();
    scheduler.submit_quantum_job(first);
    scheduler.submit_quantum_job(second);
    let cancelled = scheduler.cancel_queued_job(second_id).unwrap();
    assert_eq!(cancelled.job_handle.status(), QuantumJobStatus::Cancelled);
    assert!(cancelled.started_at.is_none());
    assert_eq!(scheduler.quantum_queue_length(), 1);
    assert!(scheduler.cancel_queued_job(second_id).is_none());
    let running = scheduler.start_next_quantum_job().unwrap();
    assert!(scheduler.cancel_queued_job(running.job_handle.handle().id()).is_none());
}
