//! Boot-protocol descriptors shared by the kernel's x86 boot conventions.
use vstd::prelude::*;

use crate::bytes::zeros;

verus! {

/// Size of [`ScreenInfo`] in bytes.
pub const SCREEN_INFO_SIZE: usize = 64;

/// Legacy display and console descriptor. The loader hands it over zeroed.
#[derive(Debug)]
pub struct ScreenInfo {
    bytes: Vec<u8>,
}

impl View for ScreenInfo {
    type V = Seq<u8>;

    closed spec fn view(&self) -> Seq<u8> {
        self.bytes@
    }
}

impl ScreenInfo {
    pub fn empty() -> (r: ScreenInfo)
        ensures
            r@ == zeros(SCREEN_INFO_SIZE as nat),
    {
        let bytes = vec![0u8; SCREEN_INFO_SIZE];
        assert(bytes@ =~= zeros(SCREEN_INFO_SIZE as nat));
        ScreenInfo { bytes }
    }

    pub fn as_bytes(&self) -> (r: &[u8])
        ensures
            r@ == self@,
    {
        self.bytes.as_slice()
    }
}

/// Size of [`ApmBiosInfo`] in bytes.
pub const APM_BIOS_INFO_SIZE: usize = 20;

/// Legacy power-management descriptor. The loader hands it over zeroed.
#[derive(Debug)]
pub struct ApmBiosInfo {
    bytes: Vec<u8>,
}

impl View for ApmBiosInfo {
    type V = Seq<u8>;

    closed spec fn view(&self) -> Seq<u8> {
        self.bytes@
    }
}

impl ApmBiosInfo {
    pub fn empty() -> (r: ApmBiosInfo)
        ensures
            r@ == zeros(APM_BIOS_INFO_SIZE as nat),
    {
        let bytes = vec![0u8; APM_BIOS_INFO_SIZE];
        assert(bytes@ =~= zeros(APM_BIOS_INFO_SIZE as nat));
        ApmBiosInfo { bytes }
    }

    pub fn as_bytes(&self) -> (r: &[u8])
        ensures
            r@ == self@,
    {
        self.bytes.as_slice()
    }
}

/// Size of [`EdidInfo`] in bytes.
pub const EDID_INFO_SIZE: usize = 128;

/// Monitor-timing descriptor. The loader hands it over zeroed.
#[derive(Debug)]
pub struct EdidInfo {
    bytes: Vec<u8>,
}

impl View for EdidInfo {
    type V = Seq<u8>;

    closed spec fn view(&self) -> Seq<u8> {
        self.bytes@
    }
}

impl EdidInfo {
    pub fn empty() -> (r: EdidInfo)
        ensures
            r@ == zeros(EDID_INFO_SIZE as nat),
    {
        let bytes = vec![0u8; EDID_INFO_SIZE];
        assert(bytes@ =~= zeros(EDID_INFO_SIZE as nat));
        EdidInfo { bytes }
    }

    pub fn as_bytes(&self) -> (r: &[u8])
        ensures
            r@ == self@,
    {
        self.bytes.as_slice()
    }
}

/// Size of [`IstInfo`] in bytes.
pub const IST_INFO_SIZE: usize = 16;

/// Intel SpeedStep (intelligent standby) descriptor. The loader hands it over zeroed.
#[derive(Debug)]
pub struct IstInfo {
    bytes: Vec<u8>,
}

impl View for IstInfo {
    type V = Seq<u8>;

    closed spec fn view(&self) -> Seq<u8> {
        self.bytes@
    }
}

impl IstInfo {
    pub fn empty() -> (r: IstInfo)
        ensures
            r@ == zeros(IST_INFO_SIZE as nat),
    {
        let bytes = vec![0u8; IST_INFO_SIZE];
        assert(bytes@ =~= zeros(IST_INFO_SIZE as nat));
        IstInfo { bytes }
    }

    pub fn as_bytes(&self) -> (r: &[u8])
        ensures
            r@ == self@,
    {
        self.bytes.as_slice()
    }
}

} // verus!
