//! Signing in to an Apple ID, and the certificates that it holds.

use vstd::prelude::*;
use vstd::string::*;

use crate::device;
use crate::numbers;
use crate::text;

verus! {

/// A text in lower case, as `str::to_lowercase` has it.
pub uninterp spec fn lowercase(s: Seq<char>) -> Seq<char>;

/// `str::to_lowercase` gives the lower case of a text, which depends on the text alone.
pub assume_specification[ str::to_lowercase ](s: &str) -> (r: String)
    ensures
        r@ == lowercase(s@),
;

/// What is needed to sign in.
pub struct AccountSettings {
    /// The address of the account, in lower case.
    pub email: String,
    pub password: String,
    pub anisette_url: String,
    pub serial_number: String,
    pub machine_name: String,
    pub notice: String,
}

/// Whether `s` holds the settings for an account whose address is `lower` in lower case.
pub open spec fn are_settings(
    s: AccountSettings,
    email: Seq<char>,
    lower: Seq<char>,
    password: Seq<char>,
    anisette_url: Seq<char>,
) -> bool {
    &&& s.email@ == lower
    &&& s.password@ == password
    &&& s.anisette_url@ == anisette_url
    &&& s.serial_number@ == "0"@
    &&& s.machine_name@ == "iloader"@
    &&& s.notice@ == "🔐 Autenticando "@ + email + "…"@
}

/// The settings for an account whose address in lower case is known.
pub fn settings_for(
    email: &str,
    lower: String,
    password: &str,
    anisette_url: &str,
) -> (r: AccountSettings)
    ensures
        are_settings(r, email@, lower@, password@, anisette_url@),
{
    AccountSettings {
        email: lower,
        password: password.to_owned(),
        anisette_url: anisette_url.to_owned(),
        serial_number: "0".to_owned(),
        machine_name: "iloader".to_owned(),
        notice: text::concat3("🔐 Autenticando ", email, "…"),
    }
}

/// The settings for an account.
pub fn account_settings(email: &str, password: &str, anisette_url: &str) -> (r: AccountSettings)
    ensures
        are_settings(r, email@, lowercase(email@), password@, anisette_url@),
{
    let lower = email.to_lowercase();
    settings_for(email, lower, password, anisette_url)
}

/// The verification code in a line that the user typed: the line without the white space around
/// it. An empty one is no code, and neither is a line that could not be read.
pub open spec fn code_in(line: Option<Seq<char>>) -> Option<Seq<char>> {
    match line {
        Some(l) => if text::trimmed(l).len() == 0 {
            None
        } else {
            Some(text::trimmed(l))
        },
        None => None,
    }
}

/// The verification code in a line that the user typed.
pub fn tfa_code(line: Option<&str>) -> (r: Option<String>)
    ensures
        device::text_of(r) == code_in(device::slice_text(line)),
{
    match line {
        Some(l) => {
            let code = text::trim_text(l);
            if code.as_str().is_empty() {
                None
            } else {
                Some(code)
            }
        },
        None => None,
    }
}

/// A development certificate of an account.
#[derive(Debug)]
pub struct Certificate {
    pub serial_number: Option<String>,
    pub name: Option<String>,
    pub machine_name: Option<String>,
}

/// The certificate serial that one entry of the user's answer stands for: the entry is the
/// number of a certificate in the list, counted from 1, which has a serial.
pub open spec fn serial_chosen(entry: Seq<char>, certs: Seq<Certificate>) -> Option<Seq<char>> {
    match numbers::number_in(text::trimmed(entry), usize::MAX as nat) {
        Some(n) => if 1 <= n <= certs.len() {
            device::text_of(certs[n - 1].serial_number)
        } else {
            None
        },
        None => None,
    }
}

/// The serials that the entries of the user's answer stand for, in order.
pub open spec fn serials_chosen(answer: Seq<Seq<char>>, certs: Seq<Certificate>) -> Seq<Seq<char>>
    decreases answer.len(),
{
    if answer.len() == 0 {
        Seq::empty()
    } else {
        let before = serials_chosen(answer.drop_last(), certs);
        match serial_chosen(answer.last(), certs) {
            Some(serial) => before.push(serial),
            None => before,
        }
    }
}

/// The certificates to revoke, by their serials, after the user's answer: the numbers between
/// its commas. Without a number of a listed certificate nothing is revoked.
pub open spec fn revocations(answer: Option<Seq<char>>, certs: Seq<Certificate>) -> Option<
    Seq<Seq<char>>,
> {
    match answer {
        Some(a) => {
            let entries = text::pieces(text::trimmed(a), ',');
            if text::trimmed(a).len() == 0 || serials_chosen(entries, certs).len() == 0 {
                None
            } else {
                Some(serials_chosen(entries, certs))
            }
        },
        None => None,
    }
}

fn chosen_serial(entry: &str, certs: &Vec<Certificate>) -> (r: Option<String>)
    ensures
        device::text_of(r) == serial_chosen(entry@, certs@),
{
    let number = text::trim_text(entry);
    match numbers::parse_number(number.as_str(), usize::MAX as u64) {
        Some(n) => {
            if n == 0 || n > certs.len() as u64 {
                None
            } else {
                match &certs[(n - 1) as usize].serial_number {
                    Some(serial) => Some(serial.clone()),
                    None => None,
                }
            }
        },
        None => None,
    }
}

/// The certificates to revoke after the user's answer.
pub fn certificates_to_revoke(answer: Option<&str>, certs: &Vec<Certificate>) -> (r: Option<
    Vec<String>,
>)
    ensures
        match r {
            Some(serials) => revocations(device::slice_text(answer), certs@) == Some(
                text::texts(serials@),
            ),
            None => revocations(device::slice_text(answer), certs@) is None,
        },
{
    let line = match answer {
        Some(a) => a,
        None => {
            return None;
        },
    };
    let input = text::trim_text(line);
    if input.as_str().is_empty() {
        return None;
    }
    let parts = text::split_text(input.as_str(), ',');
    let ghost entries = text::pieces(input@, ',');
    let mut serials: Vec<String> = Vec::new();
    let mut i: usize = 0;
    proof {
        assert(entries.take(0) =~= Seq::<Seq<char>>::empty());
        assert(text::texts(serials@) =~= Seq::<Seq<char>>::empty());
    }
    while i < parts.len()
        invariant
            i <= parts@.len(),
            text::texts(parts@) == entries,
            text::texts(serials@) == serials_chosen(entries.take(i as int), certs@),
        decreases parts@.len() - i,
    {
        let ghost before = serials@;
        proof {
            assert(entries[i as int] == parts@[i as int]@);
            assert(entries.take(i + 1).drop_last() =~= entries.take(i as int));
        }
        if let Some(serial) = chosen_serial(parts[i].as_str(), certs) {
            serials.push(serial);
            proof {
                assert(text::texts(serials@) =~= text::texts(before).push(serial@));
            }
        }
        i = i + 1;
    }
    proof {
        assert(entries.take(i as int) =~= entries);
        assert(text::texts(serials@).len() == serials@.len());
    }
    if serials.len() == 0 {
        None
    } else {
        Some(serials)
    }
}

/// Only serials of listed certificates are revoked.
pub proof fn law_only_listed_certificates_are_revoked(
    answer: Seq<char>,
    certs: Seq<Certificate>,
    serial: Seq<char>,
)
    requires
        revocations(Some(answer), certs) is Some,
        revocations(Some(answer), certs)->0.contains(serial),
    ensures
        exists|i: int|
            0 <= i < certs.len() && device::text_of((#[trigger] certs[i]).serial_number) == Some(
                serial,
            ),
{
    lemma_chosen_are_listed(text::pieces(text::trimmed(answer), ','), certs, serial);
}

proof fn lemma_chosen_are_listed(
    entries: Seq<Seq<char>>,
    certs: Seq<Certificate>,
    serial: Seq<char>,
)
    requires
        serials_chosen(entries, certs).contains(serial),
    ensures
        exists|i: int|
            0 <= i < certs.len() && device::text_of((#[trigger] certs[i]).serial_number) == Some(
                serial,
            ),
    decreases entries.len(),
{
    let before = serials_chosen(entries.drop_last(), certs);
    let all = serials_chosen(entries, certs);
    let k = choose|k: int| 0 <= k < all.len() && all[k] == serial;
    match serial_chosen(entries.last(), certs) {
        Some(s) => {
            if k == before.len() {
                let n = numbers::number_in(text::trimmed(entries.last()), usize::MAX as nat)->0;
                assert(device::text_of(certs[n - 1].serial_number) == Some(serial));
            } else {
                assert(before[k] == serial);
                lemma_chosen_are_listed(entries.drop_last(), certs, serial);
            }
        },
        None => {
            lemma_chosen_are_listed(entries.drop_last(), certs, serial);
        },
    }
}

/// The numbers of certificates, counted from 1, as text.
pub open spec fn listed_numbers(places: Seq<int>) -> Seq<Seq<char>> {
    places.map_values(|p: int| numbers::decimal((p + 1) as nat))
}

/// The serials of the certificates at the given places.
pub open spec fn serials_at(places: Seq<int>, certs: Seq<Certificate>) -> Seq<Seq<char>> {
    places.map_values(|p: int| device::text_of(certs[p].serial_number)->0)
}

/// Typing the numbers under which certificates are listed, with commas between them, revokes
/// those certificates, in the order typed.
pub proof fn law_listed_numbers_select_certificates(places: Seq<int>, certs: Seq<Certificate>)
    requires
        places.len() > 0,
        certs.len() <= usize::MAX,
        forall|i: int|
            0 <= i < places.len() ==> 0 <= (#[trigger] places[i]) < certs.len()
                && certs[places[i]].serial_number is Some,
    ensures
        revocations(Some(text::joined(listed_numbers(places), seq![','])), certs) == Some(
            serials_at(places, certs),
        ),
{
    let parts = listed_numbers(places);
    let answer = text::joined(parts, seq![',']);
    assert forall|i: int| 0 <= i < parts.len() implies {
        &&& (#[trigger] parts[i]).len() > 0
        &&& numbers::all_digits(parts[i])
        &&& !parts[i].contains(',')
    } by {
        assert(places[i] >= 0);
        numbers::lemma_decimal_value((places[i] + 1) as nat);
        assert forall|k: int| 0 <= k < parts[i].len() implies parts[i][k] != ',' by {
            assert(numbers::is_digit(parts[i][k]));
        }
    }
    text::lemma_pieces_of_joined(parts, ',');
    lemma_digits_at_the_ends(parts);
    text::lemma_nothing_to_trim(answer);
    lemma_numbers_choose(places, certs);
    assert(serials_chosen(parts, certs) == serials_at(places, certs));
}

proof fn lemma_digits_at_the_ends(parts: Seq<Seq<char>>)
    requires
        parts.len() > 0,
        forall|i: int|
            0 <= i < parts.len() ==> (#[trigger] parts[i]).len() > 0 && numbers::all_digits(
                parts[i],
            ),
    ensures
        text::joined(parts, seq![',']).len() > 0,
        numbers::is_digit(text::joined(parts, seq![',']).first()),
        numbers::is_digit(text::joined(parts, seq![',']).last()),
    decreases parts.len(),
{
    let whole = text::joined(parts, seq![',']);
    let last = parts[parts.len() - 1];
    assert(numbers::is_digit(last[last.len() - 1]));
    if parts.len() == 1 {
        assert(numbers::is_digit(parts[0][0]));
    } else {
        let front = parts.drop_last();
        assert forall|i: int| 0 <= i < front.len() implies (#[trigger] front[i]).len() > 0
            && numbers::all_digits(front[i]) by {
            assert(front[i] == parts[i]);
        }
        lemma_digits_at_the_ends(front);
        assert(whole == text::joined(front, seq![',']) + seq![','] + last);
        assert(whole.first() == text::joined(front, seq![',']).first());
        assert(whole.last() == last.last());
    }
}

proof fn lemma_numbers_choose(places: Seq<int>, certs: Seq<Certificate>)
    requires
        certs.len() <= usize::MAX,
        forall|i: int|
            0 <= i < places.len() ==> 0 <= (#[trigger] places[i]) < certs.len()
                && certs[places[i]].serial_number is Some,
    ensures
        serials_chosen(listed_numbers(places), certs) == serials_at(places, certs),
    decreases places.len(),
{
    let parts = listed_numbers(places);
    let serials = serials_at(places, certs);
    if places.len() == 0 {
        assert(serials =~= Seq::<Seq<char>>::empty());
    } else {
        let front = places.drop_last();
        assert forall|i: int| 0 <= i < front.len() implies 0 <= (#[trigger] front[i]) < certs.len()
            && certs[front[i]].serial_number is Some by {
            assert(front[i] == places[i]);
        }
        lemma_numbers_choose(front, certs);
        assert(parts.drop_last() =~= listed_numbers(front));
        let p = places[places.len() - 1];
        let n = (p + 1) as nat;
        let entry = parts.last();
        assert(entry == numbers::decimal(n));
        numbers::lemma_decimal_value(n);
        assert(numbers::is_digit(entry[0]));
        assert(numbers::is_digit(entry[entry.len() - 1]));
        text::lemma_nothing_to_trim(entry);
        numbers::law_written_number_is_read_back(n, usize::MAX as nat);
        assert(serial_chosen(entry, certs) == device::text_of(certs[p].serial_number));
        assert(serials =~= serials_at(front, certs).push(
            device::text_of(certs[p].serial_number)->0,
        ));
    }
}

/// The settings hold the password and the anisette server as they were given, the address in the
/// lower case that was given, and fixed words for the rest.
pub proof fn law_settings_are_passed_on(
    s: AccountSettings,
    email: Seq<char>,
    lower: Seq<char>,
    password: Seq<char>,
    anisette_url: Seq<char>,
)
    requires
        are_settings(s, email, lower, password, anisette_url),
    ensures
        s.email@ == lower,
        s.password@ == password,
        s.anisette_url@ == anisette_url,
        s.serial_number@ == "0"@,
        s.machine_name@ == "iloader"@,
        s.notice@ == "🔐 Autenticando "@ + email + "…"@,
{
}

/// The code is what was typed, character for character, without the white space around it: what
/// has none at its ends comes out as it is, leading zeros and all. White space alone is no code,
/// and neither is a line that could not be read.
pub proof fn law_the_code_is_what_was_typed(a: Seq<char>, code: Seq<char>, b: Seq<char>)
    requires
        forall|i: int| 0 <= i < a.len() ==> text::is_white_space(#[trigger] a[i]),
        forall|i: int| 0 <= i < b.len() ==> text::is_white_space(#[trigger] b[i]),
        code.len() > 0 ==> !text::is_white_space(code[0]) && !text::is_white_space(
            code[code.len() - 1],
        ),
    ensures
        code.len() > 0 ==> code_in(Some(code)) == Some(code),
        code.len() > 0 ==> code_in(Some(a + code + b)) == Some(code),
        code.len() == 0 ==> code_in(Some(a + code + b)) is None,
        code_in(None) is None,
{
    text::law_only_white_space_is_trimmed(a, code, b);
}

/// A number in an entry, with any white space around it, stands for the certificate with that
/// number in the list, counted from 1, and for its serial as it is. A number out of the list
/// stands for nothing, and so does a certificate without a serial.
pub proof fn law_an_entry_selects_by_number(
    a: Seq<char>,
    n: nat,
    b: Seq<char>,
    certs: Seq<Certificate>,
)
    requires
        forall|i: int| 0 <= i < a.len() ==> text::is_white_space(#[trigger] a[i]),
        forall|i: int| 0 <= i < b.len() ==> text::is_white_space(#[trigger] b[i]),
        n <= usize::MAX,
    ensures
        1 <= n <= certs.len() && (certs[n - 1].serial_number is Some) ==> serial_chosen(
            a + numbers::decimal(n) + b,
            certs,
        ) == Some(certs[n - 1].serial_number->0@),
        1 <= n <= certs.len() && (certs[n - 1].serial_number is None) ==> serial_chosen(
            a + numbers::decimal(n) + b,
            certs,
        ) is None,
        n == 0 || n > certs.len() ==> serial_chosen(a + numbers::decimal(n) + b, certs) is None,
{
    let entry = numbers::decimal(n);
    numbers::lemma_decimal_value(n);
    assert(numbers::is_digit(entry[0]));
    assert(numbers::is_digit(entry[entry.len() - 1]));
    text::law_only_white_space_is_trimmed(a, entry, b);
    numbers::law_written_number_is_read_back(n, usize::MAX as nat);
}

/// An entry with a character in it that is no digit, but for a plus in front, stands for nothing;
/// entries that are the same number stand for the same.
pub proof fn law_an_entry_has_to_be_a_number(
    a: Seq<char>,
    entry: Seq<char>,
    b: Seq<char>,
    i: int,
    other: Seq<char>,
    certs: Seq<Certificate>,
)
    requires
        forall|k: int| 0 <= k < a.len() ==> text::is_white_space(#[trigger] a[k]),
        forall|k: int| 0 <= k < b.len() ==> text::is_white_space(#[trigger] b[k]),
        entry.len() > 0 ==> !text::is_white_space(entry[0]) && !text::is_white_space(
            entry[entry.len() - 1],
        ),
    ensures
        entry.len() == 0 ==> serial_chosen(a + entry + b, certs) is None,
        0 <= i < entry.len() && !('0' <= entry[i] <= '9') && !(i == 0 && entry[i] == '+')
            ==> serial_chosen(a + entry + b, certs) is None,
        numbers::number_in(text::trimmed(entry), usize::MAX as nat) == numbers::number_in(
            text::trimmed(other),
            usize::MAX as nat,
        ) ==> serial_chosen(entry, certs) == serial_chosen(other, certs),
        serial_chosen(a + entry + b, certs) == serial_chosen(entry, certs),
{
    text::law_only_white_space_is_trimmed(a, entry, b);
    numbers::law_only_digits_are_read(entry, i, usize::MAX as nat);
    if entry.len() == 0 {
        assert(entry =~= Seq::<char>::empty());
    }
}

/// Each entry of an answer counts for itself and in its place: what entries in front select comes
/// in front of what those behind select.
pub proof fn law_each_entry_counts_for_itself(
    x: Seq<Seq<char>>,
    y: Seq<Seq<char>>,
    entry: Seq<char>,
    certs: Seq<Certificate>,
)
    ensures
        serials_chosen(x + y, certs) == serials_chosen(x, certs) + serials_chosen(y, certs),
        serial_chosen(entry, certs) matches Some(serial) ==> serials_chosen(seq![entry], certs)
            == seq![serial],
        serial_chosen(entry, certs) is None ==> serials_chosen(seq![entry], certs).len() == 0,
    decreases y.len(),
{
    let one = seq![entry];
    assert(one.drop_last() =~= Seq::<Seq<char>>::empty());
    assert(serials_chosen(one.drop_last(), certs) =~= Seq::<Seq<char>>::empty());
    if let Some(serial) = serial_chosen(entry, certs) {
        assert(serials_chosen(one, certs) =~= seq![serial]);
    }
    if y.len() == 0 {
        assert(x + y =~= x);
        assert(serials_chosen(x, certs) + serials_chosen(y, certs) =~= serials_chosen(x, certs));
    } else {
        law_each_entry_counts_for_itself(x, y.drop_last(), entry, certs);
        assert((x + y).drop_last() =~= x + y.drop_last());
        assert((x + y).last() == y.last());
        assert(serials_chosen(x + y, certs) =~= serials_chosen(x, certs) + serials_chosen(
            y,
            certs,
        ));
    }
}

/// What is revoked is what the entries between the commas of the answer select, without the white
/// space around the answer. Where they select nothing, where the answer is white space alone, and
/// where none could be read, nothing is revoked.
pub proof fn law_the_answer_selects_what_is_revoked(
    a: Seq<char>,
    answer: Seq<char>,
    b: Seq<char>,
    certs: Seq<Certificate>,
)
    requires
        forall|i: int| 0 <= i < a.len() ==> text::is_white_space(#[trigger] a[i]),
        forall|i: int| 0 <= i < b.len() ==> text::is_white_space(#[trigger] b[i]),
        answer.len() > 0 ==> !text::is_white_space(answer[0]) && !text::is_white_space(
            answer[answer.len() - 1],
        ),
    ensures
        answer.len() == 0 ==> revocations(Some(a + answer + b), certs) is None,
        answer.len() > 0 && serials_chosen(text::pieces(answer, ','), certs).len() == 0
            ==> revocations(Some(a + answer + b), certs) is None,
        answer.len() > 0 && serials_chosen(text::pieces(answer, ','), certs).len() > 0
            ==> revocations(Some(a + answer + b), certs) == Some(
            serials_chosen(text::pieces(answer, ','), certs),
        ),
        revocations(None, certs) is None,
{
    text::law_only_white_space_is_trimmed(a, answer, b);
}

} // verus!
