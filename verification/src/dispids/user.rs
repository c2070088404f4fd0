//! `User` dispinterface members.
use vstd::prelude::*;

verus! {

/// `ValidatePassword`, 1 param.
pub const VALIDATE_PASSWORD: i32 = 0x1;

/// `HasPrivilege`, 1 param.
pub const HAS_PRIVILEGE: i32 = 0x2;

/// `AsPropertyObject`, no params.
pub const AS_PROPERTY_OBJECT: i32 = 0x3;

/// `LoginName`, read/write.
pub const LOGIN_NAME: i32 = 0x14;

/// `Password`, read/write.
pub const PASSWORD: i32 = 0x15;

/// `FullName`, read/write.
pub const FULL_NAME: i32 = 0x16;

/// `Privileges`, read-only.
pub const PRIVILEGES: i32 = 0x18;

/// `Members`, read-only.
pub const MEMBERS: i32 = 0x19;

} // verus!
