//! The diagnostic-scan pipeline: a scanner bound to the diagnostic
//! capability of a platform-bound link, reading trouble codes. Read-only: no
//! vehicle state and no local catalog is mutated.
use vstd::prelude::*;

use crate::copy_vec;
use crate::error::Error;
use crate::link::{UdsInterface, UdsInterfaceView};

verus! {

/// A trouble-code scanner over one diagnostic channel.
#[derive(Debug)]
pub struct UdsScanner {
    pub interface: UdsInterface,
}

/// The mathematical model of a `UdsScanner`.
pub ghost struct UdsScannerView {
    pub interface: UdsInterfaceView,
}

impl View for UdsScanner {
    type V = UdsScannerView;

    open spec fn view(&self) -> UdsScannerView {
        UdsScannerView { interface: self.interface@ }
    }
}

impl UdsScanner {
    /// Binds a scanner to a diagnostic channel.
    pub fn new(interface: UdsInterface) -> (r: UdsScanner)
        ensures
            r@.interface == interface@,
    {
        UdsScanner { interface }
    }

    /// Executes a read of the diagnostic trouble codes: the staged outcome
    /// of the channel, with a read fault wrapped and propagated.
    pub fn scan(&self) -> (r: Result<Vec<u32>, Error>)
        ensures
            self@.interface.outcome matches Ok(c) ==> (r matches Ok(v) && v@ == c),
            self@.interface.outcome matches Err(m) ==> (r matches Err(Error::Protocol(f)) && f@
                == m),
    {
        match &self.interface.outcome {
            Ok(codes) => Ok(copy_vec(codes)),
            Err(m) => Err(Error::Protocol(m.clone())),
        }
    }
}

} // verus!
