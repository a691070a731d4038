//! Pairing documents: the property lists that are put on a device.

use vstd::prelude::*;

use crate::error;
use crate::error::{CliError, ErrorKind, ErrorView};
use crate::property_list;
use crate::text;

verus! {

/// `idevice::remote_pairing::RpPairingFile`: the keys of a remote pairing.
#[verifier::external_type_specification]
#[verifier::external_body]
pub struct ExRemotePairing(idevice::remote_pairing::RpPairingFile);

/// A pair record of a device, field by field.
#[derive(Debug)]
pub struct PairRecord {
    pub device_certificate: Vec<u8>,
    pub host_private_key: Vec<u8>,
    pub host_certificate: Vec<u8>,
    pub root_private_key: Vec<u8>,
    pub root_certificate: Vec<u8>,
    pub system_buid: String,
    pub host_id: String,
    pub escrow_bag: Option<Vec<u8>>,
    pub wifi_mac_address: String,
    pub udid: Option<String>,
}

/// A pair record as contracts speak of it.
#[verifier::ext_equal]
pub struct PairRecordView {
    pub device_certificate: Seq<u8>,
    pub host_private_key: Seq<u8>,
    pub host_certificate: Seq<u8>,
    pub root_private_key: Seq<u8>,
    pub root_certificate: Seq<u8>,
    pub system_buid: Seq<char>,
    pub host_id: Seq<char>,
    pub escrow_bag: Option<Seq<u8>>,
    pub wifi_mac_address: Seq<char>,
    pub udid: Option<Seq<char>>,
}

impl View for PairRecord {
    type V = PairRecordView;

    open spec fn view(&self) -> PairRecordView {
        PairRecordView {
            device_certificate: self.device_certificate@,
            host_private_key: self.host_private_key@,
            host_certificate: self.host_certificate@,
            root_private_key: self.root_private_key@,
            root_certificate: self.root_certificate@,
            system_buid: self.system_buid@,
            host_id: self.host_id@,
            escrow_bag: match self.escrow_bag {
                Some(bag) => Some(bag@),
                None => None,
            },
            wifi_mac_address: self.wifi_mac_address@,
            udid: match self.udid {
                Some(udid) => Some(udid@),
                None => None,
            },
        }
    }
}

/// The XML document of a pair record, or the words of the failure.
pub uninterp spec fn xml_of_record(record: PairRecordView) -> Result<Seq<u8>, Seq<char>>;

/// What reading XML bytes as a property list gives: the value, or the words of the failure.
pub uninterp spec fn value_of_xml(xml: Seq<u8>) -> Result<plist::Value, Seq<char>>;

/// The XML bytes of a dictionary with the given entries, or the words of the failure.
pub uninterp spec fn xml_of_entries(items: Seq<(Seq<char>, plist::Value)>) -> Result<
    Seq<u8>,
    Seq<char>,
>;

/// The XML document of a remote pairing.
pub uninterp spec fn xml_of_remote_pairing(pairing: idevice::remote_pairing::RpPairingFile) -> Seq<
    u8,
>;

/// `idevice::pairing_file::PairingFile::serialize` of a record with the given fields: its XML
/// document, or the text of the failure. Both depend on the fields alone.
#[verifier::external_body]
fn serialize_record(record: PairRecord) -> (r: Result<Vec<u8>, String>)
    ensures
        match r {
            Ok(xml) => xml_of_record(record@) == Ok::<Seq<u8>, Seq<char>>(xml@),
            Err(e) => xml_of_record(record@) == Err::<Seq<u8>, Seq<char>>(e@),
        },
{
    let file = idevice::pairing_file::PairingFile {
        device_certificate: record.device_certificate.into(),
        host_private_key: record.host_private_key,
        host_certificate: record.host_certificate.into(),
        root_private_key: record.root_private_key,
        root_certificate: record.root_certificate.into(),
        system_buid: record.system_buid,
        host_id: record.host_id,
        escrow_bag: record.escrow_bag,
        wifi_mac_address: record.wifi_mac_address,
        udid: record.udid,
    };
    file.serialize().map_err(|e| e.to_string())
}

/// `idevice::remote_pairing::RpPairingFile::to_bytes` gives the XML document of the pairing,
/// which depends on the pairing alone.
pub assume_specification[ idevice::remote_pairing::RpPairingFile::to_bytes ](
    pairing: &idevice::remote_pairing::RpPairingFile,
) -> (r: Vec<u8>)
    ensures
        r@ == xml_of_remote_pairing(*pairing),
;

/// Whether XML bytes are the document of a pair record or of a remote pairing. Such a document
/// holds texts and data, and nothing else.
pub open spec fn made_here(xml: Seq<u8>) -> bool {
    ||| exists|record: PairRecordView| #[trigger]
        xml_of_record(record) == Ok::<Seq<u8>, Seq<char>>(xml)
    ||| exists|pairing: idevice::remote_pairing::RpPairingFile| #[trigger]
        xml_of_remote_pairing(pairing) == xml
}

/// Whether a value was read from the document of a pair record or of a remote pairing.
pub open spec fn document_value(value: plist::Value) -> bool {
    exists|xml: Seq<u8>|
        made_here(xml) && #[trigger] value_of_xml(xml) == Ok::<plist::Value, Seq<char>>(value)
}

/// Whether entries are those of one such value, or of two put together.
pub open spec fn writable(items: Seq<(Seq<char>, plist::Value)>) -> bool {
    ||| exists|value: plist::Value| document_value(value) && #[trigger] entries_in(value) == items
    ||| exists|base: plist::Value, added: plist::Value|
        document_value(base) && document_value(added) && #[trigger] property_list::merged(
            entries_in(base),
            entries_in(added),
        ) == items
}

/// `plist::Value::from_reader_xml` on bytes in memory: the value that they encode, or the text
/// of the failure. Both depend on the bytes alone. It panics on some dates, so the bytes have to
/// be a document without any.
#[verifier::external_body]
fn parse_xml(xml: &[u8]) -> (r: Result<plist::Value, String>)
    requires
        made_here(xml@),
    ensures
        match r {
            Ok(v) => value_of_xml(xml@) == Ok::<plist::Value, Seq<char>>(v),
            Err(e) => value_of_xml(xml@) == Err::<plist::Value, Seq<char>>(e@),
        },
{
    plist::Value::from_reader_xml(std::io::Cursor::new(xml)).map_err(|e| e.to_string())
}

/// `plist::Value::to_writer_xml` of a dictionary into memory: the XML bytes, or the text of the
/// failure. Both depend on the entries and their order alone. It panics on some dates, so the
/// entries have to come from documents without any.
#[verifier::external_body]
fn write_xml(d: &plist::Dictionary) -> (r: Result<Vec<u8>, String>)
    requires
        writable(property_list::entries(*d)),
    ensures
        match r {
            Ok(bytes) => xml_of_entries(property_list::entries(*d)) == Ok::<Seq<u8>, Seq<char>>(
                bytes@,
            ),
            Err(e) => xml_of_entries(property_list::entries(*d)) == Err::<Seq<u8>, Seq<char>>(e@),
        },
{
    let mut out = Vec::new();
    match plist::Value::Dictionary(d.clone()).to_writer_xml(&mut out) {
        Ok(()) => Ok(out),
        Err(e) => Err(e.to_string()),
    }
}

/// The pairing failure with the given detail.
pub open spec fn pairing_failure(detail: Seq<char>) -> ErrorView {
    error::failure(ErrorKind::Pairing, detail)
}

/// The property list in XML bytes; what cannot be read is a pairing failure.
pub open spec fn readable(xml: Seq<u8>) -> Result<plist::Value, ErrorView> {
    match value_of_xml(xml) {
        Ok(v) => Ok(v),
        Err(text) => Err(pairing_failure(text)),
    }
}

/// The XML bytes of a dictionary; what cannot be written is a pairing failure.
pub open spec fn written(items: Seq<(Seq<char>, plist::Value)>) -> Result<
    Seq<u8>,
    ErrorView,
> {
    match xml_of_entries(items) {
        Ok(xml) => Ok(xml),
        Err(text) => Err(pairing_failure(text)),
    }
}

/// A pair record with the UDID of its device filled in.
pub open spec fn named_record(record: PairRecordView, udid: Seq<char>) -> PairRecordView {
    PairRecordView { udid: Some(udid), ..record }
}

/// A pair record with the UDID of its device filled in.
pub fn name_record(record: PairRecord, udid: &str) -> (r: PairRecord)
    ensures
        r@ == named_record(record@, udid@),
        r.udid matches Some(u) && u@ == udid@,
        r.device_certificate@ == record.device_certificate@,
        r.host_private_key@ == record.host_private_key@,
        r.host_certificate@ == record.host_certificate@,
        r.root_private_key@ == record.root_private_key@,
        r.root_certificate@ == record.root_certificate@,
        r.system_buid@ == record.system_buid@,
        r.host_id@ == record.host_id@,
        r.escrow_bag == record.escrow_bag,
        r.wifi_mac_address@ == record.wifi_mac_address@,
{
    let named = PairRecord { udid: Some(udid.to_owned()), ..record };
    assert(named@ =~= named_record(record@, udid@));
    named
}

/// The lockdown document of a device: its pair record, with its UDID filled in, as a property
/// list.
pub open spec fn lockdown_value(record: PairRecordView, udid: Seq<char>) -> Result<
    plist::Value,
    ErrorView,
> {
    match xml_of_record(named_record(record, udid)) {
        Ok(xml) => readable(xml),
        Err(text) => Err(pairing_failure("serialize: "@ + text)),
    }
}

fn read_document(xml: &[u8]) -> (r: Result<plist::Value, CliError>)
    requires
        made_here(xml@),
    ensures
        error::outcome(r) == readable(xml@),
        r matches Ok(value) ==> document_value(value),
{
    match parse_xml(xml) {
        Ok(v) => Ok(v),
        Err(text) => Err(CliError::Pairing(text)),
    }
}

fn write_document(d: &plist::Dictionary) -> (r: Result<Vec<u8>, CliError>)
    requires
        writable(property_list::entries(*d)),
    ensures
        error::bytes_outcome(r) == written(property_list::entries(*d)),
{
    match write_xml(d) {
        Ok(xml) => Ok(xml),
        Err(text) => Err(CliError::Pairing(text)),
    }
}

/// The lockdown document of a device, as a property list.
#[derive(Debug)]
pub struct LockdownDocument {
    value: plist::Value,
}

impl View for LockdownDocument {
    type V = plist::Value;

    closed spec fn view(&self) -> plist::Value {
        self.value
    }
}

impl LockdownDocument {
    #[verifier::type_invariant]
    spec fn was_read(self) -> bool {
        document_value(self.value)
    }
}

/// The lockdown document of a device.
pub fn lockdown_document(record: PairRecord, udid: &str) -> (r: Result<LockdownDocument, CliError>)
    ensures
        match r {
            Ok(document) => lockdown_value(record@, udid@) == Ok::<plist::Value, ErrorView>(
                document@,
            ),
            Err(e) => lockdown_value(record@, udid@) == Err::<plist::Value, ErrorView>(e@),
        },
{
    match serialize_record(name_record(record, udid)) {
        Ok(xml) => match read_document(xml.as_slice()) {
            Ok(value) => Ok(LockdownDocument { value }),
            Err(e) => Err(e),
        },
        Err(text) => Err(CliError::Pairing(text::concat2("serialize: ", text.as_str()))),
    }
}

/// The entries of a value: none where it is no dictionary.
pub open spec fn entries_in(value: plist::Value) -> Seq<(Seq<char>, plist::Value)> {
    match property_list::dictionary_in(value) {
        Some(d) => property_list::entries(d),
        None => Seq::empty(),
    }
}

/// The pairing document of a device without remote pairing: the lockdown document, which has to
/// be a dictionary.
pub open spec fn lockdown_only(lockdown: plist::Value) -> Result<
    Seq<u8>,
    ErrorView,
> {
    match property_list::dictionary_in(lockdown) {
        Some(d) => written(property_list::entries(d)),
        None => Err(pairing_failure("Lockdown plist no es un diccionario"@)),
    }
}

/// The pairing document of a device with remote pairing: the lockdown entries with those of the
/// remote pairing put in.
pub open spec fn lockdown_and_remote(lockdown: plist::Value, remote_xml: Seq<u8>) -> Result<
    Seq<u8>,
    ErrorView,
> {
    match readable(remote_xml) {
        Ok(remote) => written(
            property_list::merged(entries_in(lockdown), entries_in(remote)),
        ),
        Err(e) => Err(e),
    }
}

/// The dictionary that a lockdown document has to be.
pub fn lockdown_dictionary(lockdown: &plist::Value) -> (r: Result<&plist::Dictionary, CliError>)
    ensures
        match r {
            Ok(d) => property_list::dictionary_in(*lockdown) == Some(*d),
            Err(e) => property_list::dictionary_in(*lockdown) is None && e@ == pairing_failure(
                "Lockdown plist no es un diccionario"@,
            ),
        },
{
    match lockdown.as_dictionary() {
        Some(d) => Ok(d),
        None => Err(CliError::Pairing("Lockdown plist no es un diccionario".to_owned())),
    }
}

/// A lockdown document and a remote pairing in one dictionary: the entries of the first with
/// those of the second put in.
pub fn combined_dictionary(lockdown: &plist::Value, remote: &plist::Value) -> (r:
    plist::Dictionary)
    ensures
        property_list::entries(r) == property_list::merged(
            entries_in(*lockdown),
            entries_in(*remote),
        ),
{
    let mut combined = plist::Dictionary::new();
    if let Some(d) = lockdown.as_dictionary() {
        property_list::insert_all(&mut combined, d);
        proof {
            property_list::lemma_merged_into_none(property_list::entries(*d));
        }
    }
    if let Some(d) = remote.as_dictionary() {
        property_list::insert_all(&mut combined, d);
    }
    combined
}

/// The pairing document of a device without remote pairing.
pub fn lockdown_pairing(lockdown: &LockdownDocument) -> (r: Result<Vec<u8>, CliError>)
    ensures
        error::bytes_outcome(r) == lockdown_only(lockdown@),
{
    proof {
        use_type_invariant(lockdown);
    }
    match lockdown_dictionary(&lockdown.value) {
        Ok(d) => {
            assert(entries_in(lockdown.value) == property_list::entries(*d));
            write_document(d)
        },
        Err(e) => Err(e),
    }
}

/// The pairing document made of a lockdown document and a remote pairing.
pub fn remote_pairing_document(
    lockdown: &LockdownDocument,
    pairing: &idevice::remote_pairing::RpPairingFile,
) -> (r: Result<Vec<u8>, CliError>)
    ensures
        error::bytes_outcome(r) == lockdown_and_remote(
            lockdown@,
            xml_of_remote_pairing(*pairing),
        ),
{
    proof {
        use_type_invariant(lockdown);
    }
    let xml = pairing.to_bytes();
    match read_document(xml.as_slice()) {
        Ok(remote) => write_document(&combined_dictionary(&lockdown.value, &remote)),
        Err(e) => Err(e),
    }
}

/// A pairing document with remote pairing is written from entries in which every entry of the
/// remote pairing stands, and every lockdown entry whose key the remote pairing does not use.
pub proof fn law_pairing_holds_both(
    lockdown: plist::Value,
    remote_xml: Seq<u8>,
    remote: plist::Value,
    key: Seq<char>,
)
    requires
        readable(remote_xml) == Ok::<plist::Value, ErrorView>(remote),
    ensures
        ({
            let items = property_list::merged(entries_in(lockdown), entries_in(remote));
            &&& lockdown_and_remote(lockdown, remote_xml) == written(items)
            &&& property_list::value_under(items, key) == match property_list::value_under(
                entries_in(remote),
                key,
            ) {
                Some(v) => Some(v),
                None => property_list::value_under(entries_in(lockdown), key),
            }
        }),
{
    property_list::law_added_entries_win(entries_in(lockdown), entries_in(remote), key);
}

/// Filling in the UDID leaves every other field of a pair record as it was.
pub proof fn law_only_the_udid_is_filled_in(record: PairRecordView, udid: Seq<char>)
    ensures
        named_record(record, udid).udid == Some(udid),
        named_record(record, udid).device_certificate == record.device_certificate,
        named_record(record, udid).host_private_key == record.host_private_key,
        named_record(record, udid).host_certificate == record.host_certificate,
        named_record(record, udid).root_private_key == record.root_private_key,
        named_record(record, udid).root_certificate == record.root_certificate,
        named_record(record, udid).system_buid == record.system_buid,
        named_record(record, udid).host_id == record.host_id,
        named_record(record, udid).escrow_bag == record.escrow_bag,
        named_record(record, udid).wifi_mac_address == record.wifi_mac_address,
{
}

/// The view of a pair record holds each field under its own name.
pub proof fn law_a_record_is_seen_field_by_field(record: PairRecord)
    ensures
        record@.device_certificate == record.device_certificate@,
        record@.host_private_key == record.host_private_key@,
        record@.host_certificate == record.host_certificate@,
        record@.root_private_key == record.root_private_key@,
        record@.root_certificate == record.root_certificate@,
        record@.system_buid == record.system_buid@,
        record@.host_id == record.host_id@,
        record@.wifi_mac_address == record.wifi_mac_address@,
        record.escrow_bag matches Some(bag) ==> record@.escrow_bag == Some(bag@),
        record.escrow_bag is None ==> record@.escrow_bag is None,
        record.udid matches Some(udid) ==> record@.udid == Some(udid@),
        record.udid is None ==> record@.udid is None,
{
}

/// The lockdown document is read from the XML of the record that was handed in, with the UDID in
/// the place of its own and nothing else changed. Where that XML cannot be made or read, this is
/// a pairing failure that says so.
pub proof fn law_the_lockdown_document_is_the_record(
    record: PairRecordView,
    udid: Seq<char>,
    named: PairRecordView,
    xml: Seq<u8>,
    text: Seq<char>,
    value: plist::Value,
)
    requires
        named.udid == Some(udid),
        named.device_certificate == record.device_certificate,
        named.host_private_key == record.host_private_key,
        named.host_certificate == record.host_certificate,
        named.root_private_key == record.root_private_key,
        named.root_certificate == record.root_certificate,
        named.system_buid == record.system_buid,
        named.host_id == record.host_id,
        named.escrow_bag == record.escrow_bag,
        named.wifi_mac_address == record.wifi_mac_address,
    ensures
        xml_of_record(named) == Ok::<Seq<u8>, Seq<char>>(xml) && value_of_xml(xml)
            == Ok::<plist::Value, Seq<char>>(value) ==> lockdown_value(record, udid)
            == Ok::<plist::Value, ErrorView>(value),
        xml_of_record(named) == Ok::<Seq<u8>, Seq<char>>(xml) && value_of_xml(xml)
            == Err::<plist::Value, Seq<char>>(text) ==> (lockdown_value(record, udid) matches Err(e)
            && e.kind == ErrorKind::Pairing && e.detail == text),
        xml_of_record(named) == Err::<Seq<u8>, Seq<char>>(text) ==> (lockdown_value(
            record,
            udid,
        ) matches Err(e) && e.kind == ErrorKind::Pairing && e.detail == "serialize: "@ + text),
{
    assert(named =~= named_record(record, udid));
}

/// A pairing document without remote pairing is the XML of all entries of the lockdown document,
/// in their order, or the pairing failure that writing it was.
pub proof fn law_a_lockdown_pairing_holds_all_entries(
    lockdown: plist::Value,
    d: plist::Dictionary,
    xml: Seq<u8>,
    text: Seq<char>,
)
    ensures
        property_list::dictionary_in(lockdown) == Some(d) && xml_of_entries(
            property_list::entries(d),
        ) == Ok::<Seq<u8>, Seq<char>>(xml) ==> lockdown_only(lockdown) == Ok::<Seq<u8>, ErrorView>(
            xml,
        ),
        property_list::dictionary_in(lockdown) == Some(d) && xml_of_entries(
            property_list::entries(d),
        ) == Err::<Seq<u8>, Seq<char>>(text) ==> (lockdown_only(lockdown) matches Err(e) && e.kind
            == ErrorKind::Pairing && e.detail == text),
        property_list::dictionary_in(lockdown) is None ==> (lockdown_only(lockdown) matches Err(e)
            && e.kind == ErrorKind::Pairing && e.detail
            == "Lockdown plist no es un diccionario"@),
{
}

/// A pairing document with remote pairing is the XML of the entries of both dictionaries, those
/// of the remote pairing put into those of the lockdown document. What is no dictionary adds
/// nothing; what cannot be read or written is a pairing failure.
pub proof fn law_a_remote_pairing_holds_all_entries(
    lockdown: plist::Value,
    remote_xml: Seq<u8>,
    remote: plist::Value,
    l: plist::Dictionary,
    r: plist::Dictionary,
    items: Seq<(Seq<char>, plist::Value)>,
    xml: Seq<u8>,
    text: Seq<char>,
)
    requires
        property_list::dictionary_in(lockdown) == Some(l),
        property_list::dictionary_in(remote) == Some(r),
        items == property_list::merged(property_list::entries(l), property_list::entries(r)),
    ensures
        value_of_xml(remote_xml) == Ok::<plist::Value, Seq<char>>(remote) && xml_of_entries(items)
            == Ok::<Seq<u8>, Seq<char>>(xml) ==> lockdown_and_remote(lockdown, remote_xml)
            == Ok::<Seq<u8>, ErrorView>(xml),
        value_of_xml(remote_xml) == Ok::<plist::Value, Seq<char>>(remote) && xml_of_entries(items)
            == Err::<Seq<u8>, Seq<char>>(text) ==> (lockdown_and_remote(
            lockdown,
            remote_xml,
        ) matches Err(e) && e.kind == ErrorKind::Pairing && e.detail == text),
        value_of_xml(remote_xml) == Err::<plist::Value, Seq<char>>(text) ==> (lockdown_and_remote(
            lockdown,
            remote_xml,
        ) matches Err(e) && e.kind == ErrorKind::Pairing && e.detail == text),
        entries_in(lockdown) == property_list::entries(l),
{
}

/// A value that is no dictionary has no entries.
pub proof fn law_what_is_no_dictionary_has_no_entries(value: plist::Value)
    requires
        property_list::dictionary_in(value) is None,
    ensures
        entries_in(value).len() == 0,
{
}

} // verus!
