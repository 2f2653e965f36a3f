//! Global hot keys, which this platform does not offer.

use vstd::prelude::*;

use crate::model::NativeExtensionsError;

verus! {

pub type HotKeyHandle = i64;

/// A key combination to listen for.
#[derive(Clone, Copy, Debug, PartialEq, Eq, Structural)]
pub struct HotKeyCreateRequest {
    pub alt: bool,
    pub shift: bool,
    pub meta: bool,
    pub control: bool,
    pub platform_code: i64,
}

pub struct PlatformHotKeyManager {}

impl PlatformHotKeyManager {
    pub fn new() -> (r: Self) {
        PlatformHotKeyManager {  }
    }

    pub fn create_hot_key(&self, handle: HotKeyHandle, request: HotKeyCreateRequest) -> (r: Result<(), NativeExtensionsError>)
        ensures
            r == Err::<(), NativeExtensionsError>(NativeExtensionsError::UnsupportedOperation),
    {
        Err(NativeExtensionsError::UnsupportedOperation)
    }

    pub fn destroy_hot_key(&self, handle: HotKeyHandle) -> (r: Result<(), NativeExtensionsError>)
        ensures
            r == Err::<(), NativeExtensionsError>(NativeExtensionsError::UnsupportedOperation),
    {
        Err(NativeExtensionsError::UnsupportedOperation)
    }
}

} // verus!
