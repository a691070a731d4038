//! What can go wrong, and the words in which the user is told.

use vstd::prelude::*;
use vstd::string::*;

use crate::text::{concat2, concat3};

verus! {

/// The sort of a failure of input or output.
#[derive(Debug, Clone, Copy, PartialEq, Eq, Structural)]
pub enum IoKind {
    /// A file that has to be there is not.
    NotFound,
    /// What the system reported; the text says what.
    System,
}

/// A failure of a command.
#[derive(Debug)]
pub enum CliError {
    NoDevice,
    DeviceNotFound(String),
    Usbmuxd(String),
    Device(String),
    Auth(String),
    Sideload(String),
    Pairing(String),
    Download(String),
    Io(IoKind, String),
    Other(String),
}

/// The sort of a failure, without its detail.
#[derive(Debug, Clone, Copy, PartialEq, Eq, Structural)]
pub enum ErrorKind {
    NoDevice,
    DeviceNotFound,
    Usbmuxd,
    Device,
    Auth,
    Sideload,
    Pairing,
    Download,
    Io(IoKind),
    Other,
}

/// A failure as contracts speak of it: its sort and the characters of its detail.
#[verifier::ext_equal]
pub struct ErrorView {
    pub kind: ErrorKind,
    pub detail: Seq<char>,
}

impl View for CliError {
    type V = ErrorView;

    open spec fn view(&self) -> ErrorView {
        match self {
            CliError::NoDevice => ErrorView { kind: ErrorKind::NoDevice, detail: Seq::empty() },
            CliError::DeviceNotFound(d) => ErrorView {
                kind: ErrorKind::DeviceNotFound,
                detail: d@,
            },
            CliError::Usbmuxd(d) => ErrorView { kind: ErrorKind::Usbmuxd, detail: d@ },
            CliError::Device(d) => ErrorView { kind: ErrorKind::Device, detail: d@ },
            CliError::Auth(d) => ErrorView { kind: ErrorKind::Auth, detail: d@ },
            CliError::Sideload(d) => ErrorView { kind: ErrorKind::Sideload, detail: d@ },
            CliError::Pairing(d) => ErrorView { kind: ErrorKind::Pairing, detail: d@ },
            CliError::Download(d) => ErrorView { kind: ErrorKind::Download, detail: d@ },
            CliError::Io(k, d) => ErrorView { kind: ErrorKind::Io(*k), detail: d@ },
            CliError::Other(d) => ErrorView { kind: ErrorKind::Other, detail: d@ },
        }
    }
}

/// A failure of the given sort.
pub open spec fn failure(kind: ErrorKind, detail: Seq<char>) -> ErrorView {
    ErrorView { kind, detail }
}

/// An outcome with its failure taken by its view.
pub open spec fn outcome<T>(r: Result<T, CliError>) -> Result<T, ErrorView> {
    match r {
        Ok(t) => Ok(t),
        Err(e) => Err(e@),
    }
}

/// A byte outcome with both sides taken by their views.
pub open spec fn bytes_outcome(r: Result<Vec<u8>, CliError>) -> Result<Seq<u8>, ErrorView> {
    match r {
        Ok(bytes) => Ok(bytes@),
        Err(e) => Err(e@),
    }
}

/// The words for a failure.
pub open spec fn error_text(e: ErrorView) -> Seq<char> {
    match e.kind {
        ErrorKind::NoDevice =>
            "No hay dispositivos conectados. Conecta el iPhone y pulsa 'Confiar'."@,
        ErrorKind::DeviceNotFound => "UDID '"@ + e.detail + "' no encontrado"@,
        ErrorKind::Usbmuxd => "usbmuxd: "@ + e.detail,
        ErrorKind::Device => "Dispositivo: "@ + e.detail,
        ErrorKind::Auth => "Apple ID: "@ + e.detail,
        ErrorKind::Sideload => "Sideloading: "@ + e.detail,
        ErrorKind::Pairing => "Pairing: "@ + e.detail,
        ErrorKind::Download => "Descarga: "@ + e.detail,
        ErrorKind::Io(_) => "E/S: "@ + e.detail,
        ErrorKind::Other => e.detail,
    }
}

impl CliError {
    /// The words for this failure.
    pub fn message(&self) -> (r: String)
        ensures
            r@ == error_text(self@),
    {
        match self {
            CliError::NoDevice =>
                "No hay dispositivos conectados. Conecta el iPhone y pulsa 'Confiar'.".to_owned(),
            CliError::DeviceNotFound(d) => concat3("UDID '", d.as_str(), "' no encontrado"),
            CliError::Usbmuxd(d) => concat2("usbmuxd: ", d.as_str()),
            CliError::Device(d) => concat2("Dispositivo: ", d.as_str()),
            CliError::Auth(d) => concat2("Apple ID: ", d.as_str()),
            CliError::Sideload(d) => concat2("Sideloading: ", d.as_str()),
            CliError::Pairing(d) => concat2("Pairing: ", d.as_str()),
            CliError::Download(d) => concat2("Descarga: ", d.as_str()),
            CliError::Io(_, d) => concat2("E/S: ", d.as_str()),
            CliError::Other(d) => d.clone(),
        }
    }

    /// What is printed when a command ends in this failure.
    pub fn report(&self) -> (r: String)
        ensures
            r@ == "\n❌  "@ + error_text(self@),
    {
        concat2("\n❌  ", self.message().as_str())
    }
}

/// The view of a failure tells its sort and keeps its detail.
pub proof fn law_a_failure_keeps_its_detail(d: String, k: IoKind)
    ensures
        CliError::NoDevice@.kind == ErrorKind::NoDevice,
        CliError::DeviceNotFound(d)@ == failure(ErrorKind::DeviceNotFound, d@),
        CliError::Usbmuxd(d)@ == failure(ErrorKind::Usbmuxd, d@),
        CliError::Device(d)@ == failure(ErrorKind::Device, d@),
        CliError::Auth(d)@ == failure(ErrorKind::Auth, d@),
        CliError::Sideload(d)@ == failure(ErrorKind::Sideload, d@),
        CliError::Pairing(d)@ == failure(ErrorKind::Pairing, d@),
        CliError::Download(d)@ == failure(ErrorKind::Download, d@),
        CliError::Io(k, d)@ == failure(ErrorKind::Io(k), d@),
        CliError::Other(d)@ == failure(ErrorKind::Other, d@),
        failure(ErrorKind::Io(k), d@).kind == ErrorKind::Io(k),
        failure(ErrorKind::Io(k), d@).detail == d@,
{
}

/// A failure by its sort and its detail, and nothing else.
pub proof fn law_a_failure_is_sort_and_detail(kind: ErrorKind, detail: Seq<char>)
    ensures
        failure(kind, detail).kind == kind,
        failure(kind, detail).detail == detail,
{
}

/// An outcome keeps what came, and of a failure its sort and its detail.
pub proof fn law_an_outcome_keeps_what_came<T>(value: T, bytes: Vec<u8>, e: CliError)
    ensures
        outcome(Ok::<T, CliError>(value)) == Ok::<T, ErrorView>(value),
        outcome(Err::<T, CliError>(e)) == Err::<T, ErrorView>(e@),
        bytes_outcome(Ok(bytes)) == Ok::<Seq<u8>, ErrorView>(bytes@),
        bytes_outcome(Err(e)) == Err::<Seq<u8>, ErrorView>(e@),
{
}

/// The words for a failure hold its detail, whole and at the end, behind words that depend on its
/// sort alone; those for an unknown device hold it between quotes.
pub proof fn law_the_words_hold_the_detail(kind: ErrorKind, detail: Seq<char>, io: IoKind)
    ensures
        kind != ErrorKind::NoDevice && kind != ErrorKind::DeviceNotFound ==> error_text(
            failure(kind, detail),
        ) == error_text(failure(kind, Seq::empty())) + detail,
        error_text(failure(ErrorKind::DeviceNotFound, detail)) == "UDID '"@ + detail
            + "' no encontrado"@,
        error_text(failure(ErrorKind::NoDevice, detail))
            == "No hay dispositivos conectados. Conecta el iPhone y pulsa 'Confiar'."@,
        error_text(failure(ErrorKind::Usbmuxd, Seq::empty())) == "usbmuxd: "@,
        error_text(failure(ErrorKind::Device, Seq::empty())) == "Dispositivo: "@,
        error_text(failure(ErrorKind::Auth, Seq::empty())) == "Apple ID: "@,
        error_text(failure(ErrorKind::Sideload, Seq::empty())) == "Sideloading: "@,
        error_text(failure(ErrorKind::Pairing, Seq::empty())) == "Pairing: "@,
        error_text(failure(ErrorKind::Download, Seq::empty())) == "Descarga: "@,
        error_text(failure(ErrorKind::Io(io), Seq::empty())) == "E/S: "@,
        error_text(failure(ErrorKind::Other, Seq::empty())).len() == 0,
{
    let none = Seq::<char>::empty();
    assert("usbmuxd: "@ + none =~= "usbmuxd: "@);
    assert("Dispositivo: "@ + none =~= "Dispositivo: "@);
    assert("Apple ID: "@ + none =~= "Apple ID: "@);
    assert("Sideloading: "@ + none =~= "Sideloading: "@);
    assert("Pairing: "@ + none =~= "Pairing: "@);
    assert("Descarga: "@ + none =~= "Descarga: "@);
    assert("E/S: "@ + none =~= "E/S: "@);
    assert(none + detail =~= detail);
}

} // verus!
