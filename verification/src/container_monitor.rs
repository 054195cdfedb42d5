//! Container snapshots and how they are read off what the container runtime
//! reports.

use vstd::prelude::*;
use vstd::string::*;
use crate::text::{
    has_pair, lowercase, occurs_in, strip_leading, unicode_lowercase, without_leading,
};

verus! {

/// A point-in-time state of one container.
#[derive(Debug)]
pub struct ContainerStatus {
    pub container_id: String,
    pub name: String,
    /// The status text as the runtime gave it.
    pub status: String,
    pub running: bool,
    /// Memory in use, in bytes, where it was measured.
    pub memory_usage: Option<u64>,
    /// Total CPU time consumed, in nanoseconds, where it was measured.
    pub cpu_usage: Option<u64>,
}

/// What a `ContainerStatus` holds, with its texts as character sequences.
pub struct ContainerStatusView {
    pub container_id: Seq<char>,
    pub name: Seq<char>,
    pub status: Seq<char>,
    pub running: bool,
    pub memory_usage: Option<u64>,
    pub cpu_usage: Option<u64>,
}

impl View for ContainerStatus {
    type V = ContainerStatusView;

    open spec fn view(&self) -> ContainerStatusView {
        ContainerStatusView {
            container_id: self.container_id@,
            name: self.name@,
            status: self.status@,
            running: self.running,
            memory_usage: self.memory_usage,
            cpu_usage: self.cpu_usage,
        }
    }
}

impl Clone for ContainerStatus {
    fn clone(&self) -> (copy: Self)
        ensures
            copy@ == self@,
    {
        ContainerStatus {
            container_id: self.container_id.clone(),
            name: self.name.clone(),
            status: self.status.clone(),
            running: self.running,
            memory_usage: self.memory_usage,
            cpu_usage: self.cpu_usage,
        }
    }
}

#[derive(Debug)]
pub enum ContainerError {
    ConnectionError(String),
    MonitoringError(String),
}

impl ContainerError {
    /// The cause that the error carries.
    pub open spec fn reason(&self) -> Seq<char> {
        match self {
            ContainerError::ConnectionError(reason) => reason@,
            ContainerError::MonitoringError(reason) => reason@,
        }
    }

    /// The error as one line of text.
    pub open spec fn description(&self) -> Seq<char> {
        match self {
            ContainerError::ConnectionError(reason) => "Docker connection error: "@ + reason@,
            ContainerError::MonitoringError(reason) => "Container monitoring error: "@ + reason@,
        }
    }

    /// Writes the error as one line of text.
    pub fn describe(&self) -> (r: String)
        ensures
            r@ == self.description(),
    {
        match self {
            ContainerError::ConnectionError(reason) => {
                String::from_str("Docker connection error: ").concat(reason.as_str())
            },
            ContainerError::MonitoringError(reason) => {
                String::from_str("Container monitoring error: ").concat(reason.as_str())
            },
        }
    }
}

/// One entry of the runtime's container listing. The runtime may leave any
/// of the fields out.
#[derive(Debug)]
pub struct ContainerSummary {
    pub id: Option<String>,
    pub names: Option<Vec<String>>,
    pub status: Option<String>,
}

/// What the runtime reports on inspecting one container, together with its
/// resource counters.
#[derive(Debug)]
pub struct ContainerInspection {
    pub name: Option<String>,
    pub status: Option<String>,
    pub running: Option<bool>,
    pub memory_usage: Option<u64>,
    pub cpu_total_usage: u64,
}

/// The text of an optional field, empty where the field is absent.
pub open spec fn text_or_empty(field: Option<String>) -> Seq<char> {
    match field {
        Some(text) => text@,
        None => Seq::empty(),
    }
}

/// The first of a container's names, empty where it has none.
pub open spec fn first_name(names: Option<Vec<String>>) -> Seq<char> {
    match names {
        Some(list) => if list@.len() > 0 {
            list@[0]@
        } else {
            Seq::empty()
        },
        None => Seq::empty(),
    }
}

/// Whether a status text reports the container as up: its lowercase form
/// contains `up`.
pub open spec fn reports_up(status: Seq<char>) -> bool {
    occurs_in(seq!['u', 'p'], unicode_lowercase(status))
}

/// The snapshot that a listing entry stands for. Absent fields read as
/// empty, the name loses its leading slashes, and the container counts as
/// running where its status text reports it as up.
pub open spec fn listed_status(summary: ContainerSummary) -> ContainerStatusView {
    ContainerStatusView {
        container_id: text_or_empty(summary.id),
        name: without_leading(first_name(summary.names), '/'),
        status: text_or_empty(summary.status),
        running: reports_up(text_or_empty(summary.status)),
        memory_usage: None,
        cpu_usage: None,
    }
}

/// The snapshot that an inspection of the container `container_id` stands
/// for. A missing running flag reads as not running, a missing memory
/// counter as 0.
pub open spec fn inspected_status(
    container_id: Seq<char>,
    inspection: ContainerInspection,
) -> ContainerStatusView {
    ContainerStatusView {
        container_id,
        name: without_leading(text_or_empty(inspection.name), '/'),
        status: text_or_empty(inspection.status),
        running: match inspection.running {
            Some(running) => running,
            None => false,
        },
        memory_usage: Some(
            match inspection.memory_usage {
                Some(bytes) => bytes,
                None => 0,
            },
        ),
        cpu_usage: Some(inspection.cpu_total_usage),
    }
}

fn owned_or_empty(field: &Option<String>) -> (text: String)
    ensures
        text@ == text_or_empty(*field),
{
    match field {
        Some(text) => text.clone(),
        None => String::new(),
    }
}

fn plain_name(name: &str) -> (plain: String)
    ensures
        plain@ == without_leading(name@, '/'),
{
    strip_leading(name, '/')
}

/// Whether a status text reports the container as up.
pub fn status_reports_up(status: &str) -> (up: bool)
    ensures
        up == reports_up(status@),
{
    let lowered = lowercase(status);
    has_pair(lowered.as_str(), 'u', 'p')
}

impl ContainerStatus {
    /// Reads a snapshot off one entry of the runtime's listing.
    pub fn from_summary(summary: &ContainerSummary) -> (status: ContainerStatus)
        ensures
            status@ == listed_status(*summary),
    {
        let name = match &summary.names {
            Some(list) => if list.len() > 0 {
                plain_name(list[0].as_str())
            } else {
                plain_name("")
            },
            None => plain_name(""),
        };
        proof {
            reveal_strlit("");
            assert(""@ =~= Seq::<char>::empty());
        }
        let status = owned_or_empty(&summary.status);
        let running = status_reports_up(status.as_str());
        ContainerStatus {
            container_id: owned_or_empty(&summary.id),
            name,
            status,
            running,
            memory_usage: None,
            cpu_usage: None,
        }
    }

    /// Reads a snapshot off the runtime's inspection of one container.
    pub fn from_inspection(container_id: &str, inspection: &ContainerInspection) -> (status:
        ContainerStatus)
        ensures
            status@ == inspected_status(container_id@, *inspection),
    {
        let name = owned_or_empty(&inspection.name);
        ContainerStatus {
            container_id: String::from_str(container_id),
            name: plain_name(name.as_str()),
            status: owned_or_empty(&inspection.status),
            running: match inspection.running {
                Some(running) => running,
                None => false,
            },
            memory_usage: Some(
                match inspection.memory_usage {
                    Some(bytes) => bytes,
                    None => 0,
                },
            ),
            cpu_usage: Some(inspection.cpu_total_usage),
        }
    }
}

/// Reads the snapshots off a whole listing, one per entry and in the
/// listing's order.
pub fn statuses_from_listing(listing: &Vec<ContainerSummary>) -> (statuses: Vec<ContainerStatus>)
    ensures
        statuses@.len() == listing@.len(),
        forall|i: int| 0 <= i < listing@.len() ==> (#[trigger] statuses@[i])@ == listed_status(listing@[i]),
{
    let mut statuses: Vec<ContainerStatus> = Vec::new();
    let mut at: usize = 0;
    while at < listing.len()
        invariant
            at <= listing@.len(),
            statuses@.len() == at,
            forall|i: int| 0 <= i < at ==> (#[trigger] statuses@[i])@ == listed_status(listing@[i]),
        decreases listing@.len() - at,
    {
        statuses.push(ContainerStatus::from_summary(&listing[at]));
        at = at + 1;
    }
    statuses
}

} // verus!
