//! Where an IPA comes from: a local file, an address, or a SideStore release.

use vstd::prelude::*;
use vstd::string::*;

use crate::error;
use crate::error::{CliError, ErrorKind, IoKind};
use crate::text;

verus! {

/// An address with a scheme: as it is where it starts with `http`, with `https://` in front
/// otherwise.
pub open spec fn normalized(url: Seq<char>) -> Seq<char> {
    if "http"@.is_prefix_of(url) {
        url
    } else {
        "https://"@ + url
    }
}

/// An address with a scheme.
pub fn normalize_url(url: &str) -> (r: String)
    ensures
        r@ == normalized(url@),
{
    if text::starts_with(url, "http") {
        url.to_owned()
    } else {
        text::concat2("https://", url)
    }
}

/// A normalized address starts with `http`, and normalizing it again changes nothing.
pub proof fn law_normalizing_twice_changes_nothing(url: Seq<char>)
    ensures
        "http"@.is_prefix_of(normalized(url)),
        normalized(normalized(url)) == normalized(url),
{
    reveal_strlit("http");
    reveal_strlit("https://");
    if !"http"@.is_prefix_of(url) {
        assert("http"@ =~= normalized(url).subrange(0, 4));
    }
}

/// Whether an IPA is named by an address.
pub open spec fn is_remote(ipa: Seq<char>) -> bool {
    "https://"@.is_prefix_of(ipa) || "http://"@.is_prefix_of(ipa)
}

/// The file name in an address: what stands behind the last slash.
pub open spec fn file_name(url: Seq<char>) -> Seq<char> {
    text::after_last(url, '/')
}

/// The name under which a download is stored.
pub open spec fn stored_name(url: Seq<char>) -> Seq<char> {
    "iloader_"@ + file_name(url)
}

/// Whether the file that was installed is deleted afterwards.
pub open spec fn deleted_after_install(ipa: Seq<char>) -> bool {
    "http"@.is_prefix_of(ipa)
}

/// Where an IPA is taken from.
#[derive(Debug)]
pub enum IpaSource {
    /// It is downloaded and stored, in the directory for temporary files, under a name.
    Download { stored_as: String, notice: String },
    /// It is a file, which has to exist.
    File,
}

/// Whether a source is the one that an IPA is taken from.
pub open spec fn is_source(source: IpaSource, ipa: Seq<char>) -> bool {
    match source {
        IpaSource::Download { stored_as, notice } => {
            &&& is_remote(ipa)
            &&& stored_as@ == stored_name(ipa)
            &&& notice@ == "⬇️  Descargando "@ + file_name(ipa) + "…"@
        },
        IpaSource::File => !is_remote(ipa),
    }
}

/// Where an IPA is taken from.
pub fn resolve_ipa(ipa: &str) -> (r: IpaSource)
    ensures
        is_source(r, ipa@),
{
    if text::starts_with(ipa, "https://") || text::starts_with(ipa, "http://") {
        let name = text::text_after_last(ipa, '/');
        IpaSource::Download {
            stored_as: text::concat2("iloader_", name.as_str()),
            notice: text::concat3("⬇️  Descargando ", name.as_str(), "…"),
        }
    } else {
        IpaSource::File
    }
}

/// The failure for an IPA file that does not exist.
pub fn missing_file(ipa: &str) -> (r: CliError)
    ensures
        r@ == error::failure(
            ErrorKind::Io(IoKind::NotFound),
            "Archivo no encontrado: "@ + ipa@,
        ),
{
    CliError::Io(IoKind::NotFound, text::concat2("Archivo no encontrado: ", ipa))
}

/// Whether the installed file is deleted after the installation.
pub fn is_deleted_after_install(ipa: &str) -> (r: bool)
    ensures
        r == deleted_after_install(ipa@),
{
    text::starts_with(ipa, "http")
}

/// Whatever is downloaded is deleted after the installation.
pub proof fn law_downloads_are_deleted(ipa: Seq<char>)
    requires
        is_remote(ipa),
    ensures
        deleted_after_install(ipa),
{
    reveal_strlit("http");
    reveal_strlit("http://");
    reveal_strlit("https://");
    assert forall|i: int| 0 <= i < 4 implies "http"@[i] == ipa[i] by {
        if "https://"@.is_prefix_of(ipa) {
            assert("https://"@[i] == ipa.subrange(0, 8)[i]);
        } else {
            assert("http://"@[i] == ipa.subrange(0, 7)[i]);
        }
    }
    assert("http"@ =~= ipa.subrange(0, 4));
}

/// The name of a stored download has no slash in it: the file lies in the directory itself.
pub proof fn law_stored_name_has_no_slash(url: Seq<char>)
    ensures
        !stored_name(url).contains('/'),
{
    reveal_strlit("iloader_");
    text::lemma_around_last(url, '/');
    let name = stored_name(url);
    assert forall|i: int| 0 <= i < name.len() implies name[i] != '/' by {
        if i >= 8 {
            assert(name[i] == file_name(url)[i - 8]);
            assert(file_name(url).contains(file_name(url)[i - 8]));
        }
    }
}

/// A SideStore release.
#[derive(Debug)]
pub struct Release {
    /// The name under which the download is stored.
    pub file_name: String,
    pub url: String,
    /// The name shown to the user.
    pub label: String,
    /// The key of the app that gets the pairing file.
    pub app_key: String,
}

/// A release as contracts speak of it.
#[verifier::ext_equal]
pub struct ReleaseView {
    pub file_name: Seq<char>,
    pub url: Seq<char>,
    pub label: Seq<char>,
    pub app_key: Seq<char>,
}

impl View for Release {
    type V = ReleaseView;

    open spec fn view(&self) -> ReleaseView {
        ReleaseView {
            file_name: self.file_name@,
            url: self.url@,
            label: self.label@,
            app_key: self.app_key@,
        }
    }
}

/// The release for a channel, with or without LiveContainer.
pub open spec fn release(nightly: bool, live_container: bool) -> ReleaseView {
    if live_container {
        ReleaseView {
            file_name: if nightly {
                "LiveContainerSideStore-Nightly.ipa"@
            } else {
                "LiveContainerSideStore.ipa"@
            },
            url: if nightly {
                "https://github.com/LiveContainer/LiveContainer/releases/download/nightly/LiveContainer+SideStore.ipa"@
            } else {
                "https://github.com/LiveContainer/LiveContainer/releases/latest/download/LiveContainer+SideStore.ipa"@
            },
            label: "LiveContainer+SideStore"@,
            app_key: "livecont"@,
        }
    } else {
        ReleaseView {
            file_name: if nightly {
                "SideStore-Nightly.ipa"@
            } else {
                "SideStore.ipa"@
            },
            url: if nightly {
                "https://github.com/SideStore/SideStore/releases/download/nightly/SideStore.ipa"@
            } else {
                "https://github.com/SideStore/SideStore/releases/latest/download/SideStore.ipa"@
            },
            label: "SideStore"@,
            app_key: "sidestore"@,
        }
    }
}

/// The release for a channel, with or without LiveContainer.
pub fn sidestore_release(nightly: bool, live_container: bool) -> (r: Release)
    ensures
        r@ == release(nightly, live_container),
{
    let (file_name, url) = if live_container {
        if nightly {
            (
                "LiveContainerSideStore-Nightly.ipa",
                "https://github.com/LiveContainer/LiveContainer/releases/download/nightly/LiveContainer+SideStore.ipa",
            )
        } else {
            (
                "LiveContainerSideStore.ipa",
                "https://github.com/LiveContainer/LiveContainer/releases/latest/download/LiveContainer+SideStore.ipa",
            )
        }
    } else if nightly {
        (
            "SideStore-Nightly.ipa",
            "https://github.com/SideStore/SideStore/releases/download/nightly/SideStore.ipa",
        )
    } else {
        (
            "SideStore.ipa",
            "https://github.com/SideStore/SideStore/releases/latest/download/SideStore.ipa",
        )
    };
    let (label, app_key) = if live_container {
        ("LiveContainer+SideStore", "livecont")
    } else {
        ("SideStore", "sidestore")
    };
    Release {
        file_name: file_name.to_owned(),
        url: url.to_owned(),
        label: label.to_owned(),
        app_key: app_key.to_owned(),
    }
}

/// Whether a prefix is there can be seen character by character.
proof fn lemma_prefix(p: Seq<char>, s: Seq<char>)
    ensures
        p.is_prefix_of(s) <==> p.len() <= s.len() && forall|i: int|
            0 <= i < p.len() ==> p[i] == s[i],
{
    if p.is_prefix_of(s) {
        assert forall|i: int| 0 <= i < p.len() implies p[i] == s[i] by {
            assert(s.subrange(0, p.len() as int)[i] == s[i]);
        }
    }
    if p.len() <= s.len() && (forall|i: int| 0 <= i < p.len() ==> p[i] == s[i]) {
        assert(p =~= s.subrange(0, p.len() as int));
    }
}

/// An address that begins with the characters of `http` is left as it is; any other one comes
/// whole behind `https://`.
pub proof fn law_an_address_is_kept_whole(url: Seq<char>)
    ensures
        url.len() >= 4 && url[0] == 'h' && url[1] == 't' && url[2] == 't' && url[3] == 'p'
            ==> normalized(url) == url,
        !(url.len() >= 4 && url[0] == 'h' && url[1] == 't' && url[2] == 't' && url[3] == 'p') ==> {
            &&& normalized(url).len() == url.len() + 8
            &&& normalized(url).take(8) == seq!['h', 't', 't', 'p', 's', ':', '/', '/']
            &&& normalized(url).skip(8) == url
        },
{
    reveal_strlit("http");
    reveal_strlit("https://");
    lemma_prefix("http"@, url);
    if url.len() >= 4 && url[0] == 'h' && url[1] == 't' && url[2] == 't' && url[3] == 'p' {
        assert("http"@.is_prefix_of(url));
    } else {
        if "http"@.is_prefix_of(url) {
            assert("http"@[0] == url[0] && "http"@[1] == url[1] && "http"@[2] == url[2]
                && "http"@[3] == url[3]);
        }
        assert(normalized(url).take(8) =~= seq!['h', 't', 't', 'p', 's', ':', '/', '/']);
        assert(normalized(url).skip(8) =~= url);
    }
}

/// An IPA is an address exactly where it begins with the characters of `http`, and behind them
/// come `://` or `s://`.
pub proof fn law_an_address_has_its_scheme_in_front(ipa: Seq<char>)
    ensures
        is_remote(ipa) <==> {
            &&& ipa.len() >= 7
            &&& ipa[0] == 'h' && ipa[1] == 't' && ipa[2] == 't' && ipa[3] == 'p'
            &&& (ipa[4] == ':' && ipa[5] == '/' && ipa[6] == '/') || (ipa.len() >= 8 && ipa[4]
                == 's' && ipa[5] == ':' && ipa[6] == '/' && ipa[7] == '/')
        },
{
    reveal_strlit("http://");
    reveal_strlit("https://");
    lemma_prefix("http://"@, ipa);
    lemma_prefix("https://"@, ipa);
    let p = "http://"@;
    let q = "https://"@;
    if p.is_prefix_of(ipa) {
        assert(p[0] == ipa[0] && p[1] == ipa[1] && p[2] == ipa[2] && p[3] == ipa[3] && p[4]
            == ipa[4] && p[5] == ipa[5] && p[6] == ipa[6]);
    }
    if q.is_prefix_of(ipa) {
        assert(q[0] == ipa[0] && q[1] == ipa[1] && q[2] == ipa[2] && q[3] == ipa[3] && q[4]
            == ipa[4] && q[5] == ipa[5] && q[6] == ipa[6] && q[7] == ipa[7]);
    }
}

/// A file is deleted after its installation exactly where the IPA begins with the four characters
/// h, t, t, p.
pub proof fn law_only_what_begins_with_http_is_deleted(ipa: Seq<char>)
    ensures
        deleted_after_install(ipa) <==> ipa.len() >= 4 && ipa[0] == 'h' && ipa[1] == 't' && ipa[2]
            == 't' && ipa[3] == 'p',
{
    reveal_strlit("http");
    lemma_prefix("http"@, ipa);
    if "http"@.is_prefix_of(ipa) {
        assert("http"@[0] == ipa[0] && "http"@[1] == ipa[1] && "http"@[2] == ipa[2] && "http"@[3]
            == ipa[3]);
    }
}

/// A download is stored under `iloader_` and what stands behind the last slash of its address,
/// whole; the user is told the same name. Only an address is downloaded.
pub proof fn law_a_download_is_named_after_its_address(
    source: IpaSource,
    before: Seq<char>,
    name: Seq<char>,
)
    requires
        is_source(source, before.push('/') + name),
        !name.contains('/'),
    ensures
        source is Download <==> is_remote(before.push('/') + name),
        file_name(before.push('/') + name) == name,
        stored_name(before.push('/') + name) == "iloader_"@ + name,
        source matches IpaSource::Download { stored_as, notice } ==> stored_as@ == "iloader_"@
            + name && notice@ == "⬇️  Descargando "@ + name + "…"@,
{
    let ipa = before.push('/') + name;
    text::lemma_last_position(ipa, '/');
    let p = text::last_position(ipa, '/');
    assert(ipa[before.len() as int] == '/');
    assert(p >= before.len());
    if p > before.len() {
        assert(ipa[p] == name[p - before.len() - 1]);
        assert(name.contains(name[p - before.len() - 1]));
    }
    assert(ipa.skip(p + 1) =~= name);
}

/// What has no slash in it is no address.
pub proof fn law_no_address_without_a_slash(ipa: Seq<char>)
    requires
        !ipa.contains('/'),
    ensures
        !is_remote(ipa),
{
    law_an_address_has_its_scheme_in_front(ipa);
    if is_remote(ipa) {
        assert(ipa.contains(ipa[6]));
    }
}

} // verus!
