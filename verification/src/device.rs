//! Connected devices: choosing one, and saying what is known of each.

use vstd::prelude::*;
use vstd::string::*;

use crate::error;
use crate::error::{CliError, ErrorKind, ErrorView};
use crate::property_list;
use crate::text;

verus! {

/// How a device is connected.
#[derive(Debug, Clone, Copy, PartialEq, Eq, Structural)]
pub enum Connection {
    Usb,
    Network,
    Unknown,
}

/// A connected device.
#[derive(Debug)]
pub struct Device {
    pub udid: String,
    pub connection: Connection,
}

/// The device that was chosen from a list.
#[derive(Debug)]
pub struct Chosen {
    /// Its place in the list.
    pub index: usize,
    pub udid: String,
    /// What the user is told about the choice.
    pub notice: Option<String>,
}

/// The first device with the given UDID.
pub open spec fn first_with_udid(devices: Seq<Device>, udid: Seq<char>) -> Option<int>
    decreases devices.len(),
{
    if devices.len() == 0 {
        None
    } else {
        match first_with_udid(devices.drop_last(), udid) {
            Some(i) => Some(i),
            None => if devices.last().udid@ == udid {
                Some(devices.len() - 1)
            } else {
                None
            },
        }
    }
}

/// The choice among devices: the first one with the UDID asked for, or the first of all where
/// none was asked for.
pub open spec fn selected(devices: Seq<Device>, udid: Option<Seq<char>>) -> Result<
    int,
    ErrorView,
> {
    if devices.len() == 0 {
        Err(error::failure(ErrorKind::NoDevice, Seq::empty()))
    } else {
        match udid {
            Some(u) => match first_with_udid(devices, u) {
                Some(i) => Ok(i),
                None => Err(error::failure(ErrorKind::DeviceNotFound, u)),
            },
            None => Ok(0),
        }
    }
}

/// What the user is told about a choice: the device taken, where several were there and none
/// was asked for.
pub open spec fn choice_notice(devices: Seq<Device>, udid: Option<Seq<char>>) -> Option<
    Seq<char>,
> {
    if udid is None && devices.len() > 1 {
        Some(
            "⚠️  Múltiples dispositivos. Usando "@ + devices[0].udid@
                + " (usa --udid para elegir)."@,
        )
    } else {
        None
    }
}

/// An optional string by its characters.
pub open spec fn text_of(s: Option<String>) -> Option<Seq<char>> {
    match s {
        Some(t) => Some(t@),
        None => None,
    }
}

/// An optional string slice by its characters.
pub open spec fn slice_text(s: Option<&str>) -> Option<Seq<char>> {
    match s {
        Some(t) => Some(t@),
        None => None,
    }
}

/// Whether `r` is the outcome of choosing among `devices`.
pub open spec fn is_choice(
    r: Result<Chosen, CliError>,
    devices: Seq<Device>,
    udid: Option<Seq<char>>,
) -> bool {
    match r {
        Ok(chosen) => {
            &&& selected(devices, udid) == Ok::<int, ErrorView>(chosen.index as int)
            &&& chosen.index < devices.len()
            &&& chosen.udid@ == devices[chosen.index as int].udid@
            &&& text_of(chosen.notice) == choice_notice(devices, udid)
        },
        Err(e) => selected(devices, udid) == Err::<int, ErrorView>(e@),
    }
}

/// The place of the first device with the given UDID.
pub fn find_device(devices: &Vec<Device>, udid: &str) -> (r: Option<usize>)
    ensures
        match r {
            Some(i) => first_with_udid(devices@, udid@) == Some(i as int) && i < devices@.len(),
            None => first_with_udid(devices@, udid@) is None,
        },
{
    let mut i: usize = 0;
    while i < devices.len()
        invariant
            i <= devices@.len(),
            first_with_udid(devices@.take(i as int), udid@) is None,
        decreases devices@.len() - i,
    {
        proof {
            assert(devices@.take(i + 1).drop_last() =~= devices@.take(i as int));
        }
        if text::same_text(devices[i].udid.as_str(), udid) {
            proof {
                lemma_found_early(devices@, udid@, i + 1);
            }
            return Some(i);
        }
        i = i + 1;
    }
    proof {
        assert(devices@.take(i as int) =~= devices@);
    }
    None
}

/// Devices further on do not change which one is first.
proof fn lemma_found_early(devices: Seq<Device>, udid: Seq<char>, n: int)
    requires
        0 <= n <= devices.len(),
        first_with_udid(devices.take(n), udid) is Some,
    ensures
        first_with_udid(devices, udid) == first_with_udid(devices.take(n), udid),
    decreases devices.len() - n,
{
    if n == devices.len() {
        assert(devices.take(n) =~= devices);
    } else {
        assert(devices.take(n + 1).drop_last() =~= devices.take(n));
        lemma_found_early(devices, udid, n + 1);
    }
}

/// Chooses a device.
pub fn select_device(devices: &Vec<Device>, udid: Option<&str>) -> (r: Result<Chosen, CliError>)
    ensures
        is_choice(r, devices@, slice_text(udid)),
{
    if devices.len() == 0 {
        return Err(CliError::NoDevice);
    }
    match udid {
        Some(u) => match find_device(devices, u) {
            Some(i) => Ok(Chosen { index: i, udid: devices[i].udid.clone(), notice: None }),
            None => Err(CliError::DeviceNotFound(u.to_owned())),
        },
        None => {
            let notice = if devices.len() > 1 {
                Some(
                    text::concat3(
                        "⚠️  Múltiples dispositivos. Usando ",
                        devices[0].udid.as_str(),
                        " (usa --udid para elegir).",
                    ),
                )
            } else {
                None
            };
            Ok(Chosen { index: 0, udid: devices[0].udid.clone(), notice })
        },
    }
}

/// A device that is asked for and chosen has the UDID asked for, and none before it has.
pub proof fn law_chosen_device_was_asked_for(devices: Seq<Device>, udid: Seq<char>, i: int)
    requires
        selected(devices, Some(udid)) == Ok::<int, ErrorView>(i),
    ensures
        0 <= i < devices.len(),
        devices[i].udid@ == udid,
        forall|j: int| 0 <= j < i ==> (#[trigger] devices[j]).udid@ != udid,
{
    lemma_first_with_udid(devices, udid);
}

/// A UDID is reported as not found exactly where devices are there and none has it.
pub proof fn law_not_found_means_absent(devices: Seq<Device>, udid: Seq<char>)
    requires
        devices.len() > 0,
    ensures
        selected(devices, Some(udid)) == Err::<int, ErrorView>(
            error::failure(ErrorKind::DeviceNotFound, udid),
        ) <==> forall|j: int| 0 <= j < devices.len() ==> (#[trigger] devices[j]).udid@ != udid,
{
    lemma_first_with_udid(devices, udid);
}

proof fn lemma_first_with_udid(devices: Seq<Device>, udid: Seq<char>)
    ensures
        match first_with_udid(devices, udid) {
            Some(i) => 0 <= i < devices.len() && devices[i].udid@ == udid && forall|j: int|
                0 <= j < i ==> (#[trigger] devices[j]).udid@ != udid,
            None => forall|j: int|
                0 <= j < devices.len() ==> (#[trigger] devices[j]).udid@ != udid,
        },
    decreases devices.len(),
{
    if devices.len() > 0 {
        let front = devices.drop_last();
        lemma_first_with_udid(front, udid);
        let end = match first_with_udid(devices, udid) {
            Some(i) => i,
            None => devices.len() as int,
        };
        assert forall|j: int| 0 <= j < end implies (#[trigger] devices[j]).udid@ != udid by {
            if j < front.len() {
                assert(front[j] == devices[j]);
            }
        }
    }
}

/// The word for a kind of connection.
pub open spec fn connection_word(connection: Connection) -> Seq<char> {
    match connection {
        Connection::Usb => "USB"@,
        Connection::Network => "Red"@,
        Connection::Unknown => "Desconocido"@,
    }
}

/// The word for a kind of connection.
pub fn connection_label(connection: Connection) -> (r: String)
    ensures
        r@ == connection_word(connection),
{
    match connection {
        Connection::Usb => "USB".to_owned(),
        Connection::Network => "Red".to_owned(),
        Connection::Unknown => "Desconocido".to_owned(),
    }
}

/// What a device answered to the questions for its name and its iOS version. A question without
/// an answer is `None`.
#[derive(Debug)]
pub struct Answers {
    pub name: Option<plist::Value>,
    pub version: Option<plist::Value>,
}

/// The text of an answer, or `otherwise` where there is no answer or it is no string.
pub open spec fn answer_text(answer: Option<plist::Value>, otherwise: Seq<char>) -> Seq<char> {
    match answer {
        Some(v) => match property_list::string_in(v) {
            Some(s) => s,
            None => otherwise,
        },
        None => otherwise,
    }
}

/// The text of an answer, or `otherwise`.
pub fn text_answer(answer: &Option<plist::Value>, otherwise: &str) -> (r: String)
    ensures
        r@ == answer_text(*answer, otherwise@),
{
    match answer {
        Some(v) => match v.as_string() {
            Some(s) => s.to_owned(),
            None => otherwise.to_owned(),
        },
        None => otherwise.to_owned(),
    }
}

/// The name of a device as it is shown.
pub open spec fn shown_name(answers: Option<Answers>) -> Seq<char> {
    match answers {
        Some(a) => answer_text(a.name, "Desconocido"@),
        None => "Desconocido"@,
    }
}

/// The iOS version of a device as it is shown.
pub open spec fn shown_version(answers: Option<Answers>) -> Seq<char> {
    match answers {
        Some(a) => answer_text(a.version, "?"@),
        None => "?"@,
    }
}

/// Name and iOS version of a device as they are shown. `None` stands for a device that could
/// not be asked.
pub fn lockdown_info(answers: &Option<Answers>) -> (r: (String, String))
    ensures
        r.0@ == shown_name(*answers),
        r.1@ == shown_version(*answers),
{
    match answers {
        Some(a) => (text_answer(&a.name, "Desconocido"), text_answer(&a.version, "?")),
        None => ("Desconocido".to_owned(), "?".to_owned()),
    }
}

/// The lines on a device in the list of devices.
pub open spec fn device_lines(device: Device, answers: Option<Answers>) -> Seq<char> {
    "  📱 "@ + shown_name(answers) + "  (iOS "@ + shown_version(answers) + ")\n     UDID: "@
        + device.udid@ + "\n     Tipo: "@ + connection_word(device.connection) + "\n"@
}

/// The lines on a device in the list of devices.
pub fn device_report(device: &Device, answers: &Option<Answers>) -> (r: String)
    ensures
        r@ == device_lines(*device, *answers),
{
    let (name, version) = lockdown_info(answers);
    let kind = connection_label(device.connection);
    let mut out = "  📱 ".to_owned();
    out.append(name.as_str());
    out.append("  (iOS ");
    out.append(version.as_str());
    out.append(")\n     UDID: ");
    out.append(device.udid.as_str());
    out.append("\n     Tipo: ");
    out.append(kind.as_str());
    out.append("\n");
    out
}

/// The characters of an optional text are those of the text, where there is one.
pub proof fn law_an_optional_text_is_its_characters(s: String, t: &str)
    ensures
        text_of(Some(s)) == Some(s@),
        text_of(None) is None,
        slice_text(Some(t)) == Some(t@),
        slice_text(None) is None,
{
}

/// A device that was chosen stands in the list, with its UDID. Where one was asked for it is the
/// first with that UDID, and nothing is said. Where none was asked for it is the first of all,
/// and its UDID is said where there are more.
pub proof fn law_a_choice_is_as_asked(chosen: Chosen, devices: Seq<Device>, udid: Option<Seq<char>>)
    requires
        is_choice(Ok(chosen), devices, udid),
    ensures
        chosen.index < devices.len(),
        chosen.udid@ == devices[chosen.index as int].udid@,
        udid matches Some(u) ==> chosen.udid@ == u && chosen.notice is None && forall|j: int|
            0 <= j < chosen.index ==> (#[trigger] devices[j]).udid@ != u,
        udid is None ==> chosen.index == 0,
        udid is None && devices.len() == 1 ==> chosen.notice is None,
        udid is None && devices.len() > 1 ==> (chosen.notice matches Some(notice) && notice@
            == "⚠️  Múltiples dispositivos. Usando "@ + devices[0].udid@
            + " (usa --udid para elegir)."@),
{
    if let Some(u) = udid {
        law_chosen_device_was_asked_for(devices, u, chosen.index as int);
    }
}

/// No device is chosen exactly where there is none, or none with the UDID asked for; the failure
/// says which.
pub proof fn law_a_choice_fails_for_want_of_a_device(
    e: CliError,
    devices: Seq<Device>,
    udid: Option<Seq<char>>,
)
    requires
        is_choice(Err(e), devices, udid),
    ensures
        devices.len() == 0 ==> e@.kind == ErrorKind::NoDevice,
        devices.len() > 0 ==> (udid matches Some(u) && e@.kind == ErrorKind::DeviceNotFound
            && e@.detail == u && forall|j: int|
            0 <= j < devices.len() ==> (#[trigger] devices[j]).udid@ != u),
{
    if devices.len() > 0 {
        if let Some(u) = udid {
            law_not_found_means_absent(devices, u);
        }
    }
}

/// Where a device is there that fits, one is chosen.
pub proof fn law_a_device_that_fits_is_chosen(
    r: Result<Chosen, CliError>,
    devices: Seq<Device>,
    udid: Option<Seq<char>>,
    i: int,
)
    requires
        is_choice(r, devices, udid),
        0 <= i < devices.len(),
        udid matches Some(u) ==> devices[i].udid@ == u,
    ensures
        r is Ok,
{
    if let Err(e) = r {
        law_a_choice_fails_for_want_of_a_device(e, devices, udid);
    }
}

/// The first device with a UDID has it, and none before it has; where none is found, none has.
pub proof fn law_the_first_device_is_found(devices: Seq<Device>, udid: Seq<char>)
    ensures
        match first_with_udid(devices, udid) {
            Some(i) => 0 <= i < devices.len() && devices[i].udid@ == udid && forall|j: int|
                0 <= j < i ==> (#[trigger] devices[j]).udid@ != udid,
            None => forall|j: int|
                0 <= j < devices.len() ==> (#[trigger] devices[j]).udid@ != udid,
        },
{
    lemma_first_with_udid(devices, udid);
}

/// An answer that is a string is shown as it came, name and version each in its own place; a
/// question without such an answer is shown as unknown, whatever came of the other.
pub proof fn law_answers_are_shown_as_they_came(
    answers: Answers,
    value: plist::Value,
    s: Seq<char>,
    otherwise: Seq<char>,
)
    ensures
        property_list::string_in(value) == Some(s) ==> answer_text(Some(value), otherwise) == s,
        property_list::string_in(value) is None ==> answer_text(Some(value), otherwise)
            == otherwise,
        answer_text(None, otherwise) == otherwise,
        answers.name == Some(value) && property_list::string_in(value) == Some(s) ==> shown_name(
            Some(answers),
        ) == s,
        answers.version == Some(value) && property_list::string_in(value) == Some(s)
            ==> shown_version(Some(answers)) == s,
        answers.name == Some(value) && property_list::string_in(value) is None ==> shown_name(
            Some(answers),
        ) == "Desconocido"@,
        answers.version == Some(value) && property_list::string_in(value) is None
            ==> shown_version(Some(answers)) == "?"@,
        answers.name is None ==> shown_name(Some(answers)) == "Desconocido"@,
        answers.version is None ==> shown_version(Some(answers)) == "?"@,
        shown_name(None) == "Desconocido"@,
        shown_version(None) == "?"@,
{
}

/// The lines on a device hold its name, its version, its UDID and its connection, each whole and
/// behind its label, and nothing else.
pub proof fn law_the_lines_hold_what_is_known(device: Device, answers: Option<Answers>)
    ensures
        ({
            let until_udid = "  📱 "@ + shown_name(answers) + "  (iOS "@ + shown_version(answers)
                + ")\n     UDID: "@;
            let line = device_lines(device, answers);
            &&& until_udid.is_prefix_of(line)
            &&& device.connection == Connection::Usb ==> line.skip(until_udid.len() as int)
                == device.udid@ + "\n     Tipo: "@ + "USB"@ + "\n"@
            &&& device.connection == Connection::Network ==> line.skip(until_udid.len() as int)
                == device.udid@ + "\n     Tipo: "@ + "Red"@ + "\n"@
            &&& device.connection == Connection::Unknown ==> line.skip(until_udid.len() as int)
                == device.udid@ + "\n     Tipo: "@ + "Desconocido"@ + "\n"@
        }),
{
    let until_udid = "  📱 "@ + shown_name(answers) + "  (iOS "@ + shown_version(answers)
        + ")\n     UDID: "@;
    let line = device_lines(device, answers);
    let rest = device.udid@ + "\n     Tipo: "@ + connection_word(device.connection) + "\n"@;
    assert(line =~= until_udid + rest);
    assert(line.subrange(0, until_udid.len() as int) =~= until_udid);
    assert(line.skip(until_udid.len() as int) =~= rest);
}

} // verus!
