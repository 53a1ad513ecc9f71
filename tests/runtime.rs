use quantum_os::aggregator::StreamAggregator;
use quantum_os::circuit::{ControlledNotGate, Gate, PauliXGate, QuantumCircuitStructure, SwapGate, ToffoliGate};
use quantum_os::error::{CircuitError, ExecutionError, QuantumRuntimeError};
use quantum_os::execution::{
    dense_state_bytes, validate_execution_request, AutoBackendSelector, ExecutionBackend, GpuBufferType,
    GpuMemoryManager, ParallelGateApplicator, QuantumExecutionEngine, SelectedBackend,
};
use quantum_os::measurement::MeasurementEvent;
use quantum_os::text::decimal_string;

#[test]
fn test_circuit_creation() {
    let mut circuit = QuantumCircuitStructure::new(2);
    let _ = circuit.apply_hadamard_gate(0);
    let _ = circuit.apply_controlled_not_gate(0, 1);

    assert_eq!(circuit.number_of_quantum_bits(), 2);
    assert_eq!(circuit.gate_count(), 2);
}

#[test]
fn test_circuit_error() {
    let err = CircuitError::InvalidQubitIndex { index: 5, total: 3 };
    assert!(err.message().contains("5"));
    assert!(err.message().contains("3"));
}

#[test]
fn test_error_conversion() {
    let circuit_err = CircuitError::EmptyCircuit;
    let runtime_err: QuantumRuntimeError = circuit_err.into();
    assert!(matches!(runtime_err, QuantumRuntimeError::Circuit(_)));
}

#[test]
fn test_gpu_memory_manager() {
    let mut manager = GpuMemoryManager::new(1024);

    let id1 = manager.allocate(256, GpuBufferType::StateVector).unwrap();
    assert_eq!(manager.total_allocated(), 256);

    let _id2 = manager.allocate(256, GpuBufferType::Staging).unwrap();
    assert_eq!(manager.total_allocated(), 512);

    assert!(manager.deallocate(id1));
    assert_eq!(manager.total_allocated(), 256);

    assert!(!manager.can_allocate(1024));
}

#[test]
fn test_backend_selection() {
    let selector = AutoBackendSelector {
        gpu_threshold_qubits: 10,
        prefer_gpu: false,
        gpu_available: true,
    };

    assert_eq!(selector.select_backend(5), SelectedBackend::DenseVector);
    assert_eq!(selector.select_backend(15), SelectedBackend::MatrixProductState);
}

#[test]
fn test_measurement_event_creation() {
    let event = MeasurementEvent::new(42, 0, vec![0, 1, 1]);
    assert_eq!(event.bitstring_as_string(), "011");
    assert_eq!(event.bitstring_as_integer(), 3);
}

#[test]
fn test_measurement_statistics() {
    let job_id = 9;
    let events = vec![
        MeasurementEvent::new(job_id, 0, vec![0, 0]),
        MeasurementEvent::new(job_id, 1, vec![0, 0]),
        MeasurementEvent::new(job_id, 2, vec![1, 1]),
        MeasurementEvent::new(job_id, 3, vec![1, 1]),
    ];

    let stats = StreamAggregator::from_events(&events);
    assert_eq!(stats.total_count(), 4);
    let p = stats.count_of(&"00".to_string()) as f64 / stats.total_count() as f64;
    assert!((p - 0.5).abs() < 1e-10);
}

#[test]
fn gpu_memory_refuses_over_budget() {
    let mut manager = GpuMemoryManager::new(100);
    assert!(manager.allocate(60, GpuBufferType::Uniform).is_ok());
    match manager.allocate(50, GpuBufferType::GateMatrix) {
        Err(quantum_os::error::BackendError::GpuMemoryAlloc { bytes }) => assert_eq!(bytes, 50),
        other => panic!("unexpected {:?}", other),
    }
    assert_eq!(manager.available(), 40);
    assert!(!manager.deallocate(12345));
}

#[test]
fn gpu_is_chosen_when_available_preferred_and_large() {
    let selector = AutoBackendSelector::with_availability(true);
    assert_eq!(selector.select_backend(10), SelectedBackend::Gpu);
    assert_eq!(selector.select_backend(9), SelectedBackend::DenseVector);
    let selector = selector.with_threshold(20).prefer_gpu(true);
    assert_eq!(selector.select_backend(13), SelectedBackend::MatrixProductState);
    assert!(!AutoBackendSelector::with_availability(false).should_use_gpu(30));
}

#[test]
fn auto_backend_is_dense_up_to_the_limit() {
    let engine = QuantumExecutionEngine::new();
    assert_eq!(engine.select_backend(12), ExecutionBackend::FullStateVectorSimulator);
    assert_eq!(engine.select_backend(13), ExecutionBackend::MatrixProductStateSimulator);
    let engine = engine.with_max_dense_qubits(4);
    assert_eq!(engine.select_backend(5), ExecutionBackend::MatrixProductStateSimulator);
    let engine = engine.with_backend(ExecutionBackend::FullStateVectorSimulator);
    assert_eq!(engine.select_backend(40), ExecutionBackend::FullStateVectorSimulator);
}

#[test]
fn zero_qubit_circuits_are_invalid_parameters() {
    assert!(matches!(validate_execution_request(0, 100), Err(QuantumRuntimeError::InvalidParameter(_))));
}

#[test]
fn zero_shots_are_an_invalid_shot_count() {
    assert!(matches!(
        validate_execution_request(2, 0),
        Err(QuantumRuntimeError::Execution(ExecutionError::InvalidShotCount(0)))
    ));
    assert!(validate_execution_request(1, 1).is_ok());
}

#[test]
fn target_equal_to_qubit_count_is_an_invalid_index() {
    let mut circuit = QuantumCircuitStructure::new(3);
    assert_eq!(circuit.apply_hadamard_gate(3), Err(CircuitError::InvalidQubitIndex { index: 3, total: 3 }));
    assert_eq!(circuit.apply_controlled_not_gate(0, 3), Err(CircuitError::InvalidQubitIndex { index: 3, total: 3 }));
    assert_eq!(circuit.gate_count(), 0);
}

#[test]
fn cnot_with_control_equal_to_target_is_refused() {
    let mut circuit = QuantumCircuitStructure::new(2);
    assert_eq!(circuit.apply_controlled_not_gate(1, 1), Err(CircuitError::SameControlTarget));
    assert_eq!(circuit.apply_swap_gate(0, 0), Err(CircuitError::DuplicateQubit(0)));
    assert_eq!(circuit.apply_toffoli_gate(0, 1, 1), Err(CircuitError::SameControlTarget));
    assert_eq!(circuit.gate_count(), 0);
}

#[test]
fn accepted_gates_are_recorded_in_order() {
    let mut circuit = QuantumCircuitStructure::new(3);
    assert!(circuit.apply_rotation_y_gate(2, 0.5f64.to_bits()).is_ok());
    assert!(circuit.apply_swap_gate(0, 2).is_ok());
    assert!(circuit.apply_toffoli_gate(0, 1, 2).is_ok());
    assert_eq!(circuit.gate_at(0), Gate::RotationY { target: 2, theta_bits: 0.5f64.to_bits() });
    assert_eq!(circuit.gate_at(2).target_quantum_bits(), vec![0, 1, 2]);
    assert_eq!(circuit.gate_at(1).gate_name(), "swap_gate");
}

#[test]
fn circuit_error_texts() {
    assert_eq!(
        CircuitError::InvalidQubitIndex { index: 5, total: 3 }.message(),
        "Invalid qubit index 5: circuit has 3 qubits"
    );
    assert_eq!(
        CircuitError::ParameterCountMismatch { expected: 2, actual: 10 }.message(),
        "Parameter count mismatch: expected 2, got 10"
    );
    assert_eq!(CircuitError::SameControlTarget.message(), "Control and target qubits must be different");
    assert_eq!(decimal_string(0), "0");
    assert_eq!(decimal_string(1234567890), "1234567890");
}

#[test]
fn pauli_x_flips_the_target_bit() {
    // Qubit 0 of 2 is the most significant bit of the index.
    let mut amps = vec![10, 11, 12, 13];
    PauliXGate::new(0).apply_to_amplitudes(&mut amps, 2);
    assert_eq!(amps, vec![12, 13, 10, 11]);
    PauliXGate::new(1).apply_to_amplitudes(&mut amps, 2);
    assert_eq!(amps, vec![13, 12, 11, 10]);
}

#[test]
fn cnot_swaps_where_control_is_set() {
    let mut amps = vec![0, 1, 2, 3];
    ControlledNotGate::new(0, 1, 2).apply_to_amplitudes(&mut amps, 2);
    assert_eq!(amps, vec![0, 1, 3, 2]);
    let mut amps = vec![0, 1, 2, 3];
    ControlledNotGate::new(1, 0, 2).apply_to_amplitudes(&mut amps, 2);
    assert_eq!(amps, vec![0, 3, 2, 1]);
}

#[test]
fn swap_and_toffoli_permute_amplitudes() {
    let mut amps = vec![0, 1, 2, 3];
    SwapGate::new(0, 1, 2).apply_to_amplitudes(&mut amps, 2);
    assert_eq!(amps, vec![0, 2, 1, 3]);
    let mut amps: Vec<u32> = (0..8).collect();
    ToffoliGate::new(0, 1, 2, 3).apply_to_amplitudes(&mut amps, 3);
    assert_eq!(amps, vec![0, 1, 2, 3, 4, 5, 7, 6]);
}

#[test]
fn dense_state_size_is_sixteen_bytes_per_amplitude() {
    assert_eq!(dense_state_bytes(10), Ok(16384));
    assert!(dense_state_bytes(60).is_err());
}

#[test]
fn chunks_hold_at_least_sixty_four_pairs() {
    let applicator = ParallelGateApplicator::new().with_thread_count(4);
    assert_eq!(applicator.chunk_size(1 << 12), 512);
    assert_eq!(applicator.chunk_size(256), 64);
    assert!(applicator.runs_in_parallel(1024));
    assert!(!applicator.runs_in_parallel(1023));
}
