//! The in-memory model of a container's runtime specification.
//!
//! Only the fields the mutation engine reads are modeled: the mount
//! records, the process environment sequence, and the hostname. Every
//! other field of the on-disk configuration is pass-through data that the
//! surrounding program keeps and writes back untouched.

use vstd::prelude::*;

verus! {

/// One mount record: a destination path and, when present, an ordered
/// list of option strings.
pub struct Mount {
    pub destination: String,
    pub options: Option<Vec<String>>,
}

/// Mathematical model of a [`Mount`].
#[verifier::ext_equal]
pub ghost struct MountModel {
    pub destination: Seq<char>,
    pub options: Option<Seq<Seq<char>>>,
}

impl DeepView for Mount {
    type V = MountModel;

    open spec fn deep_view(&self) -> MountModel {
        MountModel { destination: self.destination@, options: self.options.deep_view() }
    }
}

impl View for Mount {
    type V = MountModel;

    open spec fn view(&self) -> MountModel {
        self.deep_view()
    }
}

/// The process section of a specification, reduced to its environment
/// sequence of `NAME=VALUE` strings.
pub struct Process {
    pub env: Option<Vec<String>>,
}

/// Mathematical model of a [`Process`].
#[verifier::ext_equal]
pub ghost struct ProcessModel {
    pub env: Option<Seq<Seq<char>>>,
}

impl DeepView for Process {
    type V = ProcessModel;

    open spec fn deep_view(&self) -> ProcessModel {
        ProcessModel { env: self.env.deep_view() }
    }
}

impl View for Process {
    type V = ProcessModel;

    open spec fn view(&self) -> ProcessModel {
        self.deep_view()
    }
}

/// The modeled part of a container's runtime specification.
pub struct RuntimeSpec {
    pub process: Option<Process>,
    pub mounts: Option<Vec<Mount>>,
    pub hostname: Option<String>,
}

/// Mathematical model of a [`RuntimeSpec`].
#[verifier::ext_equal]
pub ghost struct SpecModel {
    pub process: Option<ProcessModel>,
    pub mounts: Option<Seq<MountModel>>,
    pub hostname: Option<Seq<char>>,
}

impl DeepView for RuntimeSpec {
    type V = SpecModel;

    open spec fn deep_view(&self) -> SpecModel {
        SpecModel {
            process: self.process.deep_view(),
            mounts: self.mounts.deep_view(),
            hostname: self.hostname.deep_view(),
        }
    }
}

impl View for RuntimeSpec {
    type V = SpecModel;

    open spec fn view(&self) -> SpecModel {
        self.deep_view()
    }
}

} // verus!
