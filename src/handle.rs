use vstd::prelude::*;
use vstd::string::StringExecFns;
use crate::platform::{fresh_id, now_secs, uuid_text};

verus! {

/// The kind of resource a handle names.
#[derive(Debug, Clone, Copy, PartialEq, Eq, Hash, Structural)]
pub enum HandleType {
    Process,
    Memory,
    File,
    Network,
    QuantumDevice,
    QuantumJob,
    MeasurementStream,
    CalibrationProfile,
}

/// The short tag printed in front of a handle's identifier.
pub open spec fn handle_tag(t: HandleType) -> Seq<char> {
    match t {
        HandleType::Process => "PROC"@,
        HandleType::Memory => "MEM"@,
        HandleType::File => "FILE"@,
        HandleType::Network => "NET"@,
        HandleType::QuantumDevice => "QDEV"@,
        HandleType::QuantumJob => "QJOB"@,
        HandleType::MeasurementStream => "MSTR"@,
        HandleType::CalibrationProfile => "QCAL"@,
    }
}

impl HandleType {
    /// The handle type's tag, as printed.
    pub fn tag(&self) -> (r: &'static str)
        ensures
            r@ == handle_tag(*self),
    {
        match self {
            HandleType::Process => "PROC",
            HandleType::Memory => "MEM",
            HandleType::File => "FILE",
            HandleType::Network => "NET",
            HandleType::QuantumDevice => "QDEV",
            HandleType::QuantumJob => "QJOB",
            HandleType::MeasurementStream => "MSTR",
            HandleType::CalibrationProfile => "QCAL",
        }
    }
}

/// A typed handle on a kernel resource, identified by a 128-bit UUID value.
#[derive(Debug, Clone, Copy, PartialEq, Eq, Hash, Structural)]
pub struct ResourceHandle {
    pub id: u128,
    pub handle_type: HandleType,
}

impl ResourceHandle {
    /// A handle of the given type with a fresh random identifier.
    pub fn new(handle_type: HandleType) -> (r: Self)
        ensures
            r.handle_type == handle_type,
    {
        ResourceHandle { id: fresh_id(), handle_type }
    }

    /// A handle with a known identifier.
    pub fn with_id(id: u128, handle_type: HandleType) -> (r: Self)
        ensures
            r.id == id,
            r.handle_type == handle_type,
    {
        ResourceHandle { id, handle_type }
    }

    pub fn id(&self) -> (r: u128)
        ensures
            r == self.id,
    {
        self.id
    }

    pub fn handle_type(&self) -> (r: HandleType)
        ensures
            r == self.handle_type,
    {
        self.handle_type
    }

    /// `TAG:uuid`, the handle's printed form.
    pub fn to_display_string(&self) -> (r: String)
        ensures
            r@ == handle_tag(self.handle_type) + ":"@ + crate::platform::uuid_hyphenated(self.id),
    {
        let mut s = String::from_str(self.handle_type.tag());
        s.append(":");
        let id_text = uuid_text(self.id);
        s.append(id_text.as_str());
        s
    }
}

/// The kind of simulator or hardware behind a device.
#[derive(Debug, Clone, Copy, PartialEq, Eq, Structural)]
pub enum QuantumBackendType {
    FullStateVectorSimulator,
    MatrixProductStateSimulator,
    HardwareIonTrap,
    HardwareSuperconducting,
    HardwarePhotonic,
}

/// A quantum device known to the kernel.
#[derive(Debug, Clone)]
pub struct QuantumDeviceHandle {
    pub resource_handle: ResourceHandle,
    pub device_name: String,
    pub number_of_quantum_bits: usize,
    pub backend_type: QuantumBackendType,
}

impl QuantumDeviceHandle {
    /// A simulator device: matrix-product-state when asked for, else dense.
    pub fn new_simulator(device_name: &str, number_of_quantum_bits: usize, use_matrix_product_state: bool) -> (r: Self)
        ensures
            r.device_name@ == device_name@,
            r.number_of_quantum_bits == number_of_quantum_bits,
            r.backend_type == (if use_matrix_product_state {
                QuantumBackendType::MatrixProductStateSimulator
            } else {
                QuantumBackendType::FullStateVectorSimulator
            }),
            r.resource_handle.handle_type == HandleType::QuantumDevice,
    {
        let backend_type = if use_matrix_product_state {
            QuantumBackendType::MatrixProductStateSimulator
        } else {
            QuantumBackendType::FullStateVectorSimulator
        };
        QuantumDeviceHandle {
            resource_handle: ResourceHandle::new(HandleType::QuantumDevice),
            device_name: String::from_str(device_name),
            number_of_quantum_bits,
            backend_type,
        }
    }

    pub fn handle(&self) -> (r: &ResourceHandle)
        ensures
            *r == self.resource_handle,
    {
        &self.resource_handle
    }

    pub fn device_name(&self) -> (r: &str)
        ensures
            r@ == self.device_name@,
    {
        self.device_name.as_str()
    }

    pub fn number_of_quantum_bits(&self) -> (r: usize)
        ensures
            r == self.number_of_quantum_bits,
    {
        self.number_of_quantum_bits
    }

    pub fn backend_type(&self) -> (r: QuantumBackendType)
        ensures
            r == self.backend_type,
    {
        self.backend_type
    }
}

/// Where a device job stands.
#[derive(Debug, Clone, Copy, PartialEq, Eq, Structural)]
pub enum QuantumJobStatus {
    Queued,
    Compiling,
    Executing,
    MeasuringResults,
    Completed,
    Failed,
    Cancelled,
}

/// A job submitted to a device.
#[derive(Debug, Clone)]
pub struct QuantumJobHandle {
    pub resource_handle: ResourceHandle,
    pub device_handle_id: u128,
    pub job_status: QuantumJobStatus,
    pub submitted_at: u64,
}

impl QuantumJobHandle {
    /// A queued job on the device, stamped with the current time.
    pub fn new(device_handle: &QuantumDeviceHandle) -> (r: Self)
        ensures
            r.device_handle_id == device_handle.resource_handle.id,
            r.job_status == QuantumJobStatus::Queued,
            r.resource_handle.handle_type == HandleType::QuantumJob,
    {
        QuantumJobHandle {
            resource_handle: ResourceHandle::new(HandleType::QuantumJob),
            device_handle_id: device_handle.resource_handle.id(),
            job_status: QuantumJobStatus::Queued,
            submitted_at: now_secs(),
        }
    }

    pub fn handle(&self) -> (r: &ResourceHandle)
        ensures
            *r == self.resource_handle,
    {
        &self.resource_handle
    }

    pub fn status(&self) -> (r: QuantumJobStatus)
        ensures
            r == self.job_status,
    {
        self.job_status
    }

    pub fn set_status(&mut self, status: QuantumJobStatus)
        ensures
            final(self).job_status == status,
            final(self).resource_handle == old(self).resource_handle,
            final(self).device_handle_id == old(self).device_handle_id,
            final(self).submitted_at == old(self).submitted_at,
    {
        self.job_status = status;
    }
}

/// A stream of measurements produced by a job.
#[derive(Debug, Clone)]
pub struct MeasurementStreamHandle {
    pub resource_handle: ResourceHandle,
    pub job_handle_id: u128,
    pub measurement_count: usize,
    pub is_active: bool,
}

impl MeasurementStreamHandle {
    /// An active stream with no measurements yet.
    pub fn new(job_handle: &QuantumJobHandle) -> (r: Self)
        ensures
            r.job_handle_id == job_handle.resource_handle.id,
            r.measurement_count == 0,
            r.is_active,
            r.resource_handle.handle_type == HandleType::MeasurementStream,
    {
        MeasurementStreamHandle {
            resource_handle: ResourceHandle::new(HandleType::MeasurementStream),
            job_handle_id: job_handle.resource_handle.id(),
            measurement_count: 0,
            is_active: true,
        }
    }

    pub fn handle(&self) -> (r: &ResourceHandle)
        ensures
            *r == self.resource_handle,
    {
        &self.resource_handle
    }

    /// Counts one more measurement (saturating at the largest count).
    pub fn increment_count(&mut self)
        ensures
            final(self).measurement_count == (if old(self).measurement_count < usize::MAX {
                old(self).measurement_count + 1
            } else {
                old(self).measurement_count as int
            }),
            final(self).is_active == old(self).is_active,
            final(self).resource_handle == old(self).resource_handle,
            final(self).job_handle_id == old(self).job_handle_id,
    {
        if self.measurement_count < usize::MAX {
            self.measurement_count = self.measurement_count + 1;
        }
    }

    pub fn close(&mut self)
        ensures
            !final(self).is_active,
            final(self).measurement_count == old(self).measurement_count,
            final(self).resource_handle == old(self).resource_handle,
            final(self).job_handle_id == old(self).job_handle_id,
    {
        self.is_active = false;
    }

    pub fn is_active(&self) -> (r: bool)
        ensures
            r == self.is_active,
    {
        self.is_active
    }
}

} // verus!
