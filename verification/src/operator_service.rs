//! How a read request is served: which panel, in which representation.
use vstd::prelude::*;

verus! {

#[derive(Clone, Copy, Debug, PartialEq, Eq, Structural)]
pub enum ReadPanel {
    Positions,
    Orders,
    Executions,
    Funds,
    Cancellations,
}

#[derive(Clone, Copy, Debug, PartialEq, Eq, Structural)]
pub enum ReadRepresentation {
    Ax,
    Ocr,
    Structured,
}

#[derive(Clone, Copy, Debug)]
pub struct ReadRequest {
    pub panel: ReadPanel,
    pub representation: Option<ReadRepresentation>,
}

#[derive(Clone, Debug)]
pub struct SelectSecurityRequest {
    pub security_code: String,
}

/// The representation a read returns: the requested one, else OCR for
/// cancellations and structured records for the other panels.
pub open spec fn representation_for(request: ReadRequest) -> ReadRepresentation {
    match request.representation {
        Some(r) => r,
        None => if request.panel == ReadPanel::Cancellations {
            ReadRepresentation::Ocr
        } else {
            ReadRepresentation::Structured
        },
    }
}

pub fn read_representation(request: &ReadRequest) -> (r: ReadRepresentation)
    ensures
        r == representation_for(*request),
{
    match request.representation {
        Some(r) => r,
        None => match request.panel {
            ReadPanel::Cancellations => ReadRepresentation::Ocr,
            _ => ReadRepresentation::Structured,
        },
    }
}

/// The panel and representation to read; structured cancellation records
/// do not exist.
pub fn read_plan(request: &ReadRequest) -> (r: Result<(ReadPanel, ReadRepresentation), String>)
    ensures
        ({
            let rep = representation_for(*request);
            if request.panel == ReadPanel::Cancellations && rep == ReadRepresentation::Structured {
                r matches Err(e) && e@ == "structured cancellation records are not implemented"@
            } else {
                r == Ok::<(ReadPanel, ReadRepresentation), String>((request.panel, rep))
            }
        }),
{
    let rep = read_representation(request);
    match (request.panel, rep) {
        (ReadPanel::Cancellations, ReadRepresentation::Structured) => Err(
            String::from_str("structured cancellation records are not implemented"),
        ),
        _ => Ok((request.panel, rep)),
    }
}

} // verus!
