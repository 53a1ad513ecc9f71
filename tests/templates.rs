use quantum_os::ansatz::LogosQAnsatzAdapter;
use quantum_os::circuit::Gate;
use quantum_os::error::CircuitError;

#[test]
fn test_ansatz_adapter() {
    let ansatz = LogosQAnsatzAdapter::hardware_efficient(2, 1);
    assert_eq!(ansatz.number_of_quantum_bits(), 2);
    assert!(ansatz.number_of_parameters() > 0);

    let params = vec![0.1f64.to_bits(); ansatz.number_of_parameters()];
    let circuit = ansatz.construct_quantum_circuit(&params).unwrap();
    assert!(circuit.gate_count() > 0);
}

#[test]
fn test_qaoa_ansatz() {
    let qaoa = LogosQAnsatzAdapter::qaoa(3, 2);
    assert_eq!(qaoa.number_of_quantum_bits(), 3);
    assert_eq!(qaoa.number_of_parameters(), 4);

    let params: Vec<u64> = [0.5f64, 0.3, 0.4, 0.2].iter().map(|x| (2.0 * x).to_bits()).collect();
    let circuit = qaoa.construct_quantum_circuit(&params).unwrap();
    assert!(circuit.gate_count() > 0);
}

#[test]
fn hardware_efficient_layer_layout() {
    let ansatz = LogosQAnsatzAdapter::hardware_efficient(2, 1);
    assert_eq!(ansatz.number_of_parameters(), 6);
    let params: Vec<u64> = (1..=6).collect();
    let circuit = ansatz.construct_quantum_circuit(&params).unwrap();
    let gates: Vec<Gate> = (0..circuit.gate_count()).map(|i| circuit.gate_at(i)).collect();
    assert_eq!(
        gates,
        vec![
            Gate::RotationY { target: 0, theta_bits: 1 },
            Gate::RotationZ { target: 0, theta_bits: 2 },
            Gate::RotationY { target: 1, theta_bits: 3 },
            Gate::RotationZ { target: 1, theta_bits: 4 },
            Gate::ControlledNot { control: 0, target: 1 },
            Gate::RotationY { target: 0, theta_bits: 5 },
            Gate::RotationY { target: 1, theta_bits: 6 },
        ]
    );
}

#[test]
fn qaoa_round_layout() {
    let qaoa = LogosQAnsatzAdapter::qaoa(3, 1);
    let circuit = qaoa.construct_quantum_circuit(&vec![7, 9]).unwrap();
    assert_eq!(circuit.gate_count(), 8);
    assert_eq!(circuit.gate_at(0), Gate::Hadamard { target: 0 });
    assert_eq!(circuit.gate_at(3), Gate::ControlledPhase { control: 0, target: 1, theta_bits: 7 });
    assert_eq!(circuit.gate_at(4), Gate::ControlledPhase { control: 1, target: 2, theta_bits: 7 });
    assert_eq!(circuit.gate_at(7), Gate::RotationX { target: 2, theta_bits: 9 });
}

#[test]
fn wrong_parameter_count_is_refused() {
    let ansatz = LogosQAnsatzAdapter::hardware_efficient(3, 2);
    assert_eq!(ansatz.number_of_parameters(), 18);
    assert!(matches!(
        ansatz.construct_quantum_circuit(&vec![0; 17]),
        Err(CircuitError::ParameterCountMismatch { expected: 18, actual: 17 })
    ));
}
