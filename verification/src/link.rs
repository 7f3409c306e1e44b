//! Communication links and their capabilities. A live link is an open
//! channel to a vehicle interface; the protocol collaborator stages on it, as
//! plain values, what its blocking operations would yield: the bytes a
//! firmware transfer produces, the progress it reports, the trouble codes a
//! diagnostic read returns. The orchestration logic here is verified against
//! those staged outcomes, whatever they are.
use vstd::prelude::*;

use crate::copy_vec;
use crate::error::Error;
use crate::platform::{Platform, PlatformView};

verus! {

/// The download capability of a bound link. Driving it blocks the caller,
/// reports progress as data arrives, and ends in the staged outcome: the raw
/// image bytes, or the protocol fault that ended the transfer.
#[derive(Debug)]
pub struct Downloader {
    /// What the blocking transfer yields.
    pub outcome: Result<Vec<u8>, String>,
    /// The progress fractions, in permille, reported while data arrives.
    pub progress: Vec<u16>,
}

/// The mathematical model of a `Downloader`.
pub ghost struct DownloaderView {
    pub outcome: Result<Seq<u8>, Seq<char>>,
    pub progress: Seq<u16>,
}

impl View for Downloader {
    type V = DownloaderView;

    open spec fn view(&self) -> DownloaderView {
        DownloaderView {
            outcome: match self.outcome {
                Ok(ref d) => Ok(d@),
                Err(ref m) => Err(m@),
            },
            progress: self.progress@,
        }
    }
}

impl Downloader {
    /// A second handle on the same staged transfer.
    pub fn duplicate(&self) -> (r: Downloader)
        ensures
            r@ == self@,
    {
        Downloader {
            outcome: match &self.outcome {
                Ok(d) => Ok(copy_vec(d)),
                Err(m) => Err(m.clone()),
            },
            progress: copy_vec(&self.progress),
        }
    }
}

/// The diagnostic capability of a bound link: a unified-diagnostic-services
/// channel whose staged outcome is what a trouble-code read would return.
#[derive(Debug)]
pub struct UdsInterface {
    /// What a diagnostic read over this channel yields.
    pub outcome: Result<Vec<u32>, String>,
}

/// The mathematical model of a `UdsInterface`.
pub ghost struct UdsInterfaceView {
    pub outcome: Result<Seq<u32>, Seq<char>>,
}

impl View for UdsInterface {
    type V = UdsInterfaceView;

    open spec fn view(&self) -> UdsInterfaceView {
        UdsInterfaceView {
            outcome: match self.outcome {
                Ok(ref c) => Ok(c@),
                Err(ref m) => Err(m@),
            },
        }
    }
}

impl UdsInterface {
    /// A second handle on the same staged channel.
    pub fn duplicate(&self) -> (r: UdsInterface)
        ensures
            r@ == self@,
    {
        UdsInterface {
            outcome: match &self.outcome {
                Ok(c) => Ok(copy_vec(c)),
                Err(m) => Err(m.clone()),
            },
        }
    }
}

/// An open communication channel, exclusively owned by whoever created it,
/// carrying the protocol capabilities the channel supports.
#[derive(Debug)]
pub struct DataLink {
    /// The transfer endpoint, if this channel supports firmware download.
    pub downloader: Option<Downloader>,
    /// The diagnostic endpoint, if this channel supports it.
    pub diagnostics: Option<UdsInterface>,
}

/// The mathematical model of a `DataLink`.
pub ghost struct DataLinkView {
    pub downloader: Option<DownloaderView>,
    pub diagnostics: Option<UdsInterfaceView>,
}

impl View for DataLink {
    type V = DataLinkView;

    open spec fn view(&self) -> DataLinkView {
        DataLinkView {
            downloader: match self.downloader {
                Some(ref d) => Some(d@),
                None => None,
            },
            diagnostics: match self.diagnostics {
                Some(ref u) => Some(u@),
                None => None,
            },
        }
    }
}

impl DataLink {
    /// A channel with no staged capabilities.
    pub fn bare() -> (r: DataLink)
        ensures
            r@.downloader is None,
            r@.diagnostics is None,
    {
        DataLink { downloader: None, diagnostics: None }
    }

    /// A second channel with the same staged capabilities.
    pub fn duplicate(&self) -> (r: DataLink)
        ensures
            r@ == self@,
    {
        DataLink {
            downloader: match &self.downloader {
                Some(d) => Some(d.duplicate()),
                None => None,
            },
            diagnostics: match &self.diagnostics {
                Some(u) => Some(u.duplicate()),
                None => None,
            },
        }
    }
}

/// One descriptor in the link catalog: a named way to open a channel, and
/// the outcome the host environment stages for opening it (a live channel,
/// or the fault — device busy, permission denied — that opening reports).
#[derive(Debug)]
pub struct LinkEntry {
    pub typename: String,
    pub description: String,
    /// What `create` yields for this descriptor.
    pub creation: Result<DataLink, String>,
}

/// The mathematical model of a `LinkEntry`.
pub ghost struct LinkEntryView {
    pub typename: Seq<char>,
    pub description: Seq<char>,
    pub creation: Result<DataLinkView, Seq<char>>,
}

impl View for LinkEntry {
    type V = LinkEntryView;

    open spec fn view(&self) -> LinkEntryView {
        LinkEntryView {
            typename: self.typename@,
            description: self.description@,
            creation: match self.creation {
                Ok(ref d) => Ok(d@),
                Err(ref m) => Err(m@),
            },
        }
    }
}

impl LinkEntry {
    /// Opens the channel this descriptor stands for. A creation fault is
    /// wrapped and propagated, not retried.
    pub fn create(&self) -> (r: Result<DataLink, Error>)
        ensures
            self@.creation matches Ok(d) ==> r matches Ok(l) && l@ == d,
            self@.creation matches Err(m) ==> r matches Err(Error::Protocol(f)) && f@ == m,
    {
        match &self.creation {
            Ok(link) => Ok(link.duplicate()),
            Err(m) => Err(Error::Protocol(m.clone())),
        }
    }
}

/// A live link paired with the shared, read-only definition of the platform
/// it was bound to. Capability accessors are present only if the
/// platform/link combination supports that protocol feature.
#[derive(Debug)]
pub struct PlatformLink {
    pub link: DataLink,
    pub platform: Platform,
}

/// The mathematical model of a `PlatformLink`.
pub ghost struct PlatformLinkView {
    pub link: DataLinkView,
    pub platform: PlatformView,
}

impl View for PlatformLink {
    type V = PlatformLinkView;

    open spec fn view(&self) -> PlatformLinkView {
        PlatformLinkView { link: self.link@, platform: self.platform@ }
    }
}

/// Whether a bound link exposes the download capability.
pub open spec fn download_capable(l: PlatformLinkView) -> bool {
    l.platform.download_supported && l.link.downloader is Some
}

/// Whether a bound link exposes the diagnostic capability.
pub open spec fn diagnostics_capable(l: PlatformLinkView) -> bool {
    l.platform.diagnostics_supported && l.link.diagnostics is Some
}

impl PlatformLink {
    /// Composes an owned live link with a platform definition.
    pub fn new(link: DataLink, platform: Platform) -> (r: PlatformLink)
        ensures
            r@.link == link@,
            r@.platform == platform@,
    {
        PlatformLink { link, platform }
    }

    /// The download capability, present only if the platform defines a
    /// download mode and the channel supports it.
    pub fn downloader(&self) -> (r: Option<&Downloader>)
        ensures
            r is Some <==> download_capable(self@),
            r matches Some(d) ==> self@.link.downloader == Some(d@),
    {
        if self.platform.download_supported {
            match &self.link.downloader {
                Some(d) => Some(d),
                None => None,
            }
        } else {
            None
        }
    }

    /// The diagnostic capability, present only if the platform defines a
    /// diagnostic service and the channel supports it.
    pub fn uds(&self) -> (r: Option<&UdsInterface>)
        ensures
            r is Some <==> diagnostics_capable(self@),
            r matches Some(u) ==> self@.link.diagnostics == Some(u@),
    {
        if self.platform.diagnostics_supported {
            match &self.link.diagnostics {
                Some(u) => Some(u),
                None => None,
            }
        } else {
            None
        }
    }
}

} // verus!
