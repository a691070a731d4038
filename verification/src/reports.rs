//! What is shown of an account, and the settings that the command line leaves open.

use vstd::prelude::*;
use vstd::string::*;

use crate::auth::Certificate;
use crate::numbers;
use crate::text;

verus! {

/// A text that may be missing, as it is shown.
pub open spec fn shown(s: Option<String>) -> Seq<char> {
    match s {
        Some(t) => t@,
        None => "?"@,
    }
}

fn shown_text(s: &Option<String>) -> (r: String)
    ensures
        r@ == shown(*s),
{
    match s {
        Some(t) => t.clone(),
        None => "?".to_owned(),
    }
}

/// The lines on a certificate in the list of certificates.
pub open spec fn certificate_lines(cert: Certificate) -> Seq<char> {
    "  Serial:  "@ + shown(cert.serial_number) + "\n  Nombre:  "@ + shown(cert.name)
        + "\n  Máquina: "@ + shown(cert.machine_name) + "\n"@
}

/// The list of certificates: a heading with their number, then the lines on each.
pub open spec fn certificate_list(certs: Seq<Certificate>) -> Seq<Seq<char>> {
    if certs.len() == 0 {
        seq!["No hay certificados de desarrollo activos."@]
    } else {
        seq!["Certificados ("@ + numbers::decimal(certs.len()) + "):\n"@] + certs.map_values(
            |c: Certificate| certificate_lines(c),
        )
    }
}

/// The list of certificates.
pub fn certificates_report(certs: &Vec<Certificate>) -> (r: Vec<String>)
    ensures
        text::texts(r@) == certificate_list(certs@),
{
    let mut out: Vec<String> = Vec::new();
    if certs.len() == 0 {
        out.push("No hay certificados de desarrollo activos.".to_owned());
        assert(text::texts(out@) =~= certificate_list(certs@));
        return out;
    }
    let count = numbers::number_text(certs.len() as u64);
    out.push(text::concat3("Certificados (", count.as_str(), "):\n"));
    let ghost all = certificate_list(certs@);
    let mut i: usize = 0;
    proof {
        assert(text::texts(out@) =~= all.take(1));
    }
    while i < certs.len()
        invariant
            i <= certs@.len(),
            certs@.len() > 0,
            all == certificate_list(certs@),
            text::texts(out@) == all.take(i + 1),
        decreases certs@.len() - i,
    {
        let ghost before = out@;
        let mut lines = "  Serial:  ".to_owned();
        lines.append(shown_text(&certs[i].serial_number).as_str());
        lines.append("\n  Nombre:  ");
        lines.append(shown_text(&certs[i].name).as_str());
        lines.append("\n  Máquina: ");
        lines.append(shown_text(&certs[i].machine_name).as_str());
        lines.append("\n");
        out.push(lines);
        proof {
            assert(all[i + 1] == certificate_lines(certs@[i as int]));
            assert(all.take(i + 2) =~= all.take(i + 1).push(all[i + 1]));
            assert(text::texts(out@) =~= text::texts(before).push(all[i + 1]));
        }
        i = i + 1;
    }
    proof {
        assert(all.take(i + 1) =~= all);
    }
    out
}

/// The line on a certificate in the list from which the user picks, at place `i`.
pub open spec fn numbered_line(i: int, cert: Certificate) -> Seq<char> {
    "  ["@ + numbers::decimal((i + 1) as nat) + "] Serial: "@ + shown(cert.serial_number)
        + "  Máquina: "@ + shown(cert.machine_name)
}

/// The list from which the user picks certificates to revoke.
pub open spec fn revocation_list(certs: Seq<Certificate>) -> Seq<Seq<char>> {
    seq!["\n⚠️  Límite de certificados alcanzado. Certificados activos:\n"@] + Seq::new(
        certs.len(),
        |i: int| numbered_line(i, certs[i]),
    )
}

/// The list from which the user picks certificates to revoke.
pub fn revocation_report(certs: &Vec<Certificate>) -> (r: Vec<String>)
    ensures
        text::texts(r@) == revocation_list(certs@),
{
    let mut out: Vec<String> = Vec::new();
    out.push("\n⚠️  Límite de certificados alcanzado. Certificados activos:\n".to_owned());
    let ghost all = revocation_list(certs@);
    let mut i: usize = 0;
    proof {
        assert(text::texts(out@) =~= all.take(1));
    }
    while i < certs.len()
        invariant
            i <= certs@.len(),
            all == revocation_list(certs@),
            text::texts(out@) == all.take(i + 1),
        decreases certs@.len() - i,
    {
        let ghost before = out@;
        let number = numbers::number_text(i as u64 + 1);
        let mut line = "  [".to_owned();
        line.append(number.as_str());
        line.append("] Serial: ");
        line.append(shown_text(&certs[i].serial_number).as_str());
        line.append("  Máquina: ");
        line.append(shown_text(&certs[i].machine_name).as_str());
        out.push(line);
        proof {
            assert(all[i + 1] == numbered_line(i as int, certs@[i as int]));
            assert(all.take(i + 2) =~= all.take(i + 1).push(all[i + 1]));
            assert(text::texts(out@) =~= text::texts(before).push(all[i + 1]));
        }
        i = i + 1;
    }
    proof {
        assert(all.take(i + 1) =~= all);
    }
    out
}

/// The heading of the list of App IDs: how many there are, how many there can be, and how many
/// are left.
pub open spec fn app_ids_line(count: nat, max: Option<u64>, available: Option<i64>) -> Seq<char> {
    "App IDs ("@ + numbers::decimal(count) + " de "@ + (match max {
        Some(n) => numbers::decimal(n as nat),
        None => "?"@,
    }) + " slots, "@ + (match available {
        Some(n) => numbers::signed_decimal(n as int),
        None => "?"@,
    }) + " disponibles):\n"@
}

/// The heading of the list of App IDs.
pub fn app_ids_heading(count: usize, max: Option<u64>, available: Option<i64>) -> (r: String)
    ensures
        r@ == app_ids_line(count as nat, max, available),
{
    let most = match max {
        Some(n) => numbers::number_text(n),
        None => "?".to_owned(),
    };
    let left = match available {
        Some(n) => numbers::signed_number_text(n),
        None => "?".to_owned(),
    };
    let mut out = "App IDs (".to_owned();
    out.append(numbers::number_text(count as u64).as_str());
    out.append(" de ");
    out.append(most.as_str());
    out.append(" slots, ");
    out.append(left.as_str());
    out.append(" disponibles):\n");
    out
}

/// What is shown after a certificate was revoked.
pub fn revoked_message(serial: &str) -> (r: String)
    ensures
        r@ == "✅ Certificado "@ + serial@ + " revocado"@,
{
    text::concat3("✅ Certificado ", serial, " revocado")
}

/// The log level for a number of `-v` flags.
pub fn log_level(verbose: u8) -> (r: &'static str)
    ensures
        verbose == 0 ==> r@ == "warn"@,
        verbose == 1 ==> r@ == "info"@,
        verbose > 1 ==> r@ == "debug"@,
{
    if verbose == 0 {
        "warn"
    } else if verbose == 1 {
        "info"
    } else {
        "debug"
    }
}

/// The directory for data: below the home directory, or below the current one where there is no
/// home.
pub open spec fn data_directory(home: Option<Seq<char>>) -> Seq<char> {
    text::path_below(
        match home {
            Some(h) => h,
            None => "."@,
        },
        ".local/share/iloader"@,
    )
}

/// The directory for data, where the user names none.
pub fn default_data_dir(home: Option<&str>) -> (r: String)
    ensures
        r@ == data_directory(crate::device::slice_text(home)),
{
    let base = match home {
        Some(h) => h,
        None => ".",
    };
    text::join_path(base, ".local/share/iloader")
}

/// What is known is shown as it is, what is not as a question mark.
pub proof fn law_what_is_known_is_shown(s: String)
    ensures
        shown(Some(s)) == s@,
        shown(None) == "?"@,
{
}

/// The lines on a certificate hold its serial, its name and its machine, each behind its label.
pub proof fn law_a_certificate_is_shown_under_its_labels(
    cert: Certificate,
    serial: Seq<char>,
    name: Seq<char>,
    machine: Seq<char>,
)
    requires
        serial == shown(cert.serial_number),
        name == shown(cert.name),
        machine == shown(cert.machine_name),
    ensures
        ("  Serial:  "@ + serial + "\n  Nombre:  "@).is_prefix_of(certificate_lines(cert)),
        certificate_lines(cert).skip(
            ("  Serial:  "@ + serial + "\n  Nombre:  "@).len() as int,
        ) == name + "\n  Máquina: "@ + machine + "\n"@,
{
    let front = "  Serial:  "@ + serial + "\n  Nombre:  "@;
    let rest = name + "\n  Máquina: "@ + machine + "\n"@;
    assert(certificate_lines(cert) =~= front + rest);
    assert(certificate_lines(cert).subrange(0, front.len() as int) =~= front);
    assert(certificate_lines(cert).skip(front.len() as int) =~= rest);
}

/// Every certificate is listed, once and in its place, behind a heading that counts them all.
/// Without certificates the one line says so.
pub proof fn law_every_certificate_is_listed(certs: Seq<Certificate>, i: int)
    ensures
        certs.len() == 0 ==> certificate_list(certs).len() == 1 && certificate_list(certs)[0]
            == "No hay certificados de desarrollo activos."@,
        certs.len() > 0 ==> certificate_list(certs).len() == certs.len() + 1,
        certs.len() > 0 ==> certificate_list(certs)[0] == "Certificados ("@ + numbers::decimal(
            certs.len(),
        ) + "):\n"@,
        0 <= i < certs.len() ==> certificate_list(certs)[i + 1] == certificate_lines(certs[i]),
{
}

/// Every certificate stands in the list to pick from, once and in its place, behind its number
/// counted from 1, with its serial and its machine.
pub proof fn law_every_certificate_can_be_picked(certs: Seq<Certificate>, i: int)
    ensures
        revocation_list(certs).len() == certs.len() + 1,
        revocation_list(certs)[0]
            == "\n⚠️  Límite de certificados alcanzado. Certificados activos:\n"@,
        0 <= i < certs.len() ==> {
            let front = "  ["@ + numbers::decimal((i + 1) as nat) + "] Serial: "@;
            &&& front.is_prefix_of(revocation_list(certs)[i + 1])
            &&& revocation_list(certs)[i + 1].skip(front.len() as int) == shown(
                certs[i].serial_number,
            ) + "  Máquina: "@ + shown(certs[i].machine_name)
        },
{
    if 0 <= i < certs.len() {
        let front = "  ["@ + numbers::decimal((i + 1) as nat) + "] Serial: "@;
        let rest = shown(certs[i].serial_number) + "  Máquina: "@ + shown(certs[i].machine_name);
        let line = revocation_list(certs)[i + 1];
        assert(line =~= front + rest);
        assert(line.subrange(0, front.len() as int) =~= front);
        assert(line.skip(front.len() as int) =~= rest);
    }
}

/// The heading shows the three numbers as they were reported, each in its own place and whatever
/// the others are; a number that was not reported is a question mark.
pub proof fn law_the_heading_shows_what_was_reported(
    count: nat,
    max: Option<u64>,
    available: Option<i64>,
    most: Seq<char>,
    left: Seq<char>,
)
    requires
        max matches Some(m) ==> most == numbers::decimal(m as nat),
        max is None ==> most == "?"@,
        available matches Some(n) ==> left == numbers::signed_decimal(n as int),
        available is None ==> left == "?"@,
    ensures
        ({
            let front = "App IDs ("@ + numbers::decimal(count) + " de "@;
            let line = app_ids_line(count, max, available);
            &&& front.is_prefix_of(line)
            &&& line.skip(front.len() as int) == most + " slots, "@ + left
                + " disponibles):\n"@
        }),
{
    let front = "App IDs ("@ + numbers::decimal(count) + " de "@;
    let rest = most + " slots, "@ + left + " disponibles):\n"@;
    let line = app_ids_line(count, max, available);
    assert(line =~= front + rest);
    assert(line.subrange(0, front.len() as int) =~= front);
    assert(line.skip(front.len() as int) =~= rest);
}

/// Headings that differ in the available quantity alone differ.
pub proof fn law_different_quantities_are_shown_differently(
    count: nat,
    max: Option<u64>,
    m: i64,
    n: i64,
)
    requires
        m != n,
    ensures
        app_ids_line(count, max, Some(m)) != app_ids_line(count, max, Some(n)),
{
    let most = match max {
        Some(k) => numbers::decimal(k as nat),
        None => "?"@,
    };
    let a = numbers::signed_decimal(m as int);
    let b = numbers::signed_decimal(n as int);
    law_the_heading_shows_what_was_reported(count, max, Some(m), most, a);
    law_the_heading_shows_what_was_reported(count, max, Some(n), most, b);
    numbers::law_different_numbers_are_written_differently(m as int, n as int);
    let front = most + " slots, "@;
    let end = " disponibles):\n"@;
    if app_ids_line(count, max, Some(m)) == app_ids_line(count, max, Some(n)) {
        let x = front + a + end;
        let y = front + b + end;
        assert(x == y);
        assert(x.len() == y.len());
        assert(x.subrange(front.len() as int, front.len() as int + a.len()) =~= a);
        assert(y.subrange(front.len() as int, front.len() as int + b.len()) =~= b);
    }
}

/// The data lies below the home directory, or below the current one where there is no home.
pub proof fn law_the_data_lies_below_the_home(home: Seq<char>)
    ensures
        home.is_prefix_of(data_directory(Some(home))),
        home.len() == 0 || home[home.len() - 1] == '/' ==> data_directory(Some(home)).skip(
            home.len() as int,
        ) == ".local/share/iloader"@,
        home.len() > 0 && home[home.len() - 1] != '/' ==> data_directory(Some(home)).skip(
            home.len() as int,
        ) == seq!['/'] + ".local/share/iloader"@,
        data_directory(None) == data_directory(Some("."@)),
{
    let whole = data_directory(Some(home));
    assert(whole.subrange(0, home.len() as int) =~= home);
    if home.len() == 0 || home[home.len() - 1] == '/' {
        assert(whole.skip(home.len() as int) =~= ".local/share/iloader"@);
    } else {
        assert(whole.skip(home.len() as int) =~= seq!['/'] + ".local/share/iloader"@);
    }
}

} // verus!
