use vstd::prelude::*;
use crate::handle::ResourceHandle;
use crate::platform::{fresh_id, now_secs};

verus! {

/// Basic rights on a resource.
#[derive(Debug, Clone, Copy, PartialEq, Eq, Hash, Structural)]
pub struct PermissionFlags {
    pub read: bool,
    pub write: bool,
    pub execute: bool,
    pub delegate: bool,
}

impl PermissionFlags {
    /// Read only.
    pub fn read_only() -> (r: Self)
        ensures
            r == (PermissionFlags { read: true, write: false, execute: false, delegate: false }),
    {
        PermissionFlags { read: true, write: false, execute: false, delegate: false }
    }

    /// Read and write.
    pub fn read_write() -> (r: Self)
        ensures
            r == (PermissionFlags { read: true, write: true, execute: false, delegate: false }),
    {
        PermissionFlags { read: true, write: true, execute: false, delegate: false }
    }

    /// Every right.
    pub fn full() -> (r: Self)
        ensures
            r == (PermissionFlags { read: true, write: true, execute: true, delegate: true }),
    {
        PermissionFlags { read: true, write: true, execute: true, delegate: true }
    }
}

/// Rights specific to quantum devices.
#[derive(Debug, Clone, Copy, PartialEq, Eq, Hash, Structural)]
pub struct QuantumPermissionFlags {
    pub submit_circuit: bool,
    pub read_measurements: bool,
    pub access_calibration: bool,
    pub modify_device_config: bool,
    pub priority_execution: bool,
}

impl QuantumPermissionFlags {
    /// What an ordinary user may do: submit circuits and read measurements.
    pub fn user_default() -> (r: Self)
        ensures
            r == (QuantumPermissionFlags {
                submit_circuit: true,
                read_measurements: true,
                access_calibration: false,
                modify_device_config: false,
                priority_execution: false,
            }),
    {
        QuantumPermissionFlags {
            submit_circuit: true,
            read_measurements: true,
            access_calibration: false,
            modify_device_config: false,
            priority_execution: false,
        }
    }

    /// Everything.
    pub fn admin() -> (r: Self)
        ensures
            r == (QuantumPermissionFlags {
                submit_circuit: true,
                read_measurements: true,
                access_calibration: true,
                modify_device_config: true,
                priority_execution: true,
            }),
    {
        QuantumPermissionFlags {
            submit_circuit: true,
            read_measurements: true,
            access_calibration: true,
            modify_device_config: true,
            priority_execution: true,
        }
    }
}

/// A grant of rights on one resource, perhaps until an expiry time (Unix
/// seconds).
#[derive(Debug, Clone, Copy, PartialEq, Eq, Hash, Structural)]
pub struct AccessCapability {
    pub id: u128,
    pub resource_handle_id: u128,
    pub permissions: PermissionFlags,
    pub granted_at: u64,
    pub expires_at: Option<u64>,
}

/// Expired at time `now`: an expiry is set and `now` has reached it.
pub open spec fn expired_at(c: AccessCapability, now: u64) -> bool {
    match c.expires_at {
        Some(t) => now >= t,
        None => false,
    }
}

impl AccessCapability {
    /// A grant on the resource, made now, without expiry.
    pub fn new(resource_handle: &ResourceHandle, permissions: PermissionFlags) -> (r: Self)
        ensures
            r.resource_handle_id == resource_handle.id,
            r.permissions == permissions,
            r.expires_at.is_none(),
    {
        AccessCapability {
            id: fresh_id(),
            resource_handle_id: resource_handle.id,
            permissions,
            granted_at: now_secs(),
            expires_at: None,
        }
    }

    pub fn with_expiration(self, expires_at: u64) -> (r: Self)
        ensures
            r == (AccessCapability { expires_at: Some(expires_at), ..self }),
    {
        AccessCapability { expires_at: Some(expires_at), ..self }
    }

    /// Whether the grant has expired at time `now`.
    pub fn is_expired_at(&self, now: u64) -> (r: bool)
        ensures
            r == expired_at(*self, now),
    {
        match self.expires_at {
            Some(t) => now >= t,
            None => false,
        }
    }

    /// Whether the grant has expired by the clock; a grant without expiry
    /// never has.
    pub fn is_expired(&self) -> (r: bool)
        ensures
            self.expires_at.is_none() ==> !r,
    {
        let now = now_secs();
        self.is_expired_at(now)
    }

    /// Read right, not expired at `now`.
    pub fn can_read_at(&self, now: u64) -> (r: bool)
        ensures
            r == (self.permissions.read && !expired_at(*self, now)),
    {
        self.permissions.read && !self.is_expired_at(now)
    }

    /// Write right, not expired at `now`.
    pub fn can_write_at(&self, now: u64) -> (r: bool)
        ensures
            r == (self.permissions.write && !expired_at(*self, now)),
    {
        self.permissions.write && !self.is_expired_at(now)
    }

    /// Execute right, not expired at `now`.
    pub fn can_execute_at(&self, now: u64) -> (r: bool)
        ensures
            r == (self.permissions.execute && !expired_at(*self, now)),
    {
        self.permissions.execute && !self.is_expired_at(now)
    }

    /// Delegate right, not expired at `now`.
    pub fn can_delegate_at(&self, now: u64) -> (r: bool)
        ensures
            r == (self.permissions.delegate && !expired_at(*self, now)),
    {
        self.permissions.delegate && !self.is_expired_at(now)
    }

    /// Read right, not expired by the clock.
    pub fn can_read(&self) -> (r: bool)
        ensures
            r ==> self.permissions.read,
            self.expires_at.is_none() ==> r == self.permissions.read,
    {
        self.can_read_at(now_secs())
    }

    /// Write right, not expired by the clock.
    pub fn can_write(&self) -> (r: bool)
        ensures
            r ==> self.permissions.write,
            self.expires_at.is_none() ==> r == self.permissions.write,
    {
        self.can_write_at(now_secs())
    }

    /// Execute right, not expired by the clock.
    pub fn can_execute(&self) -> (r: bool)
        ensures
            r ==> self.permissions.execute,
            self.expires_at.is_none() ==> r == self.permissions.execute,
    {
        self.can_execute_at(now_secs())
    }

    /// Delegate right, not expired by the clock.
    pub fn can_delegate(&self) -> (r: bool)
        ensures
            r ==> self.permissions.delegate,
            self.expires_at.is_none() ==> r == self.permissions.delegate,
    {
        self.can_delegate_at(now_secs())
    }
}

/// A grant with quantum-specific rights on top.
#[derive(Debug, Clone, Copy, PartialEq, Eq, Hash, Structural)]
pub struct QuantumAccessPermission {
    pub base_capability: AccessCapability,
    pub quantum_permissions: QuantumPermissionFlags,
}

impl QuantumAccessPermission {
    pub fn new(resource_handle: &ResourceHandle, base_permissions: PermissionFlags, quantum_permissions: QuantumPermissionFlags) -> (r: Self)
        ensures
            r.base_capability.resource_handle_id == resource_handle.id,
            r.base_capability.permissions == base_permissions,
            r.base_capability.expires_at.is_none(),
            r.quantum_permissions == quantum_permissions,
    {
        QuantumAccessPermission {
            base_capability: AccessCapability::new(resource_handle, base_permissions),
            quantum_permissions,
        }
    }

    /// May submit circuits: the quantum right and a live execute right.
    pub fn can_submit_circuit(&self) -> (r: bool)
        ensures
            r ==> self.quantum_permissions.submit_circuit && self.base_capability.permissions.execute,
            self.base_capability.expires_at.is_none() ==> r == (self.quantum_permissions.submit_circuit
                && self.base_capability.permissions.execute),
    {
        self.quantum_permissions.submit_circuit && self.base_capability.can_execute()
    }

    /// May read measurements: the quantum right and a live read right.
    pub fn can_read_measurements(&self) -> (r: bool)
        ensures
            r ==> self.quantum_permissions.read_measurements && self.base_capability.permissions.read,
            self.base_capability.expires_at.is_none() ==> r == (self.quantum_permissions.read_measurements
                && self.base_capability.permissions.read),
    {
        self.quantum_permissions.read_measurements && self.base_capability.can_read()
    }

    /// May read calibration data: the quantum right and a live read right.
    pub fn can_access_calibration(&self) -> (r: bool)
        ensures
            r ==> self.quantum_permissions.access_calibration && self.base_capability.permissions.read,
            self.base_capability.expires_at.is_none() ==> r == (self.quantum_permissions.access_calibration
                && self.base_capability.permissions.read),
    {
        self.quantum_permissions.access_calibration && self.base_capability.can_read()
    }
}

} // verus!
