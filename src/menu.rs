//! Context menus, which this platform does not offer.

use vstd::prelude::*;

use crate::model::{ImageData, NativeExtensionsError};

verus! {

pub type PlatformMenuContextId = i64;

#[derive(Debug)]
pub struct PlatformMenu {}

impl PlatformMenu {
    pub fn new(isolate_id: i64) -> (r: Result<PlatformMenu, NativeExtensionsError>)
        ensures
            r is Ok,
    {
        Ok(PlatformMenu {  })
    }
}

pub struct PlatformMenuContext {}

impl PlatformMenuContext {
    pub fn new(id: PlatformMenuContextId, engine_handle: i64) -> (r: Result<PlatformMenuContext, NativeExtensionsError>)
        ensures
            r is Ok,
    {
        Ok(PlatformMenuContext {  })
    }

    pub fn update_preview_image(&self, configuration_id: i64, image_data: ImageData) -> (r: Result<(), NativeExtensionsError>)
        ensures
            r == Err::<(), NativeExtensionsError>(NativeExtensionsError::UnsupportedOperation),
    {
        Err(NativeExtensionsError::UnsupportedOperation)
    }

    pub fn show_context_menu(&self) -> (r: Result<(), NativeExtensionsError>)
        ensures
            r == Err::<(), NativeExtensionsError>(NativeExtensionsError::UnsupportedOperation),
    {
        Err(NativeExtensionsError::UnsupportedOperation)
    }
}

} // verus!
