//! The apps that take a pairing file, and where in them it goes.

use vstd::prelude::*;
use vstd::string::*;

use crate::error;
use crate::error::{CliError, ErrorKind, ErrorView};
use crate::property_list;
use crate::text;

verus! {

/// An app that takes a pairing file.
#[derive(Debug, Clone, Copy)]
pub struct PairingApp {
    /// The key by which the user names the app.
    pub key: &'static str,
    pub display_name: &'static str,
    /// A part of the app's bundle identifier.
    pub bundle_fragment: &'static str,
    /// The path of the pairing file below the app's documents.
    pub file_path: &'static str,
}

/// An app as contracts speak of it.
#[verifier::ext_equal]
pub struct PairingAppView {
    pub key: Seq<char>,
    pub display_name: Seq<char>,
    pub bundle_fragment: Seq<char>,
    pub file_path: Seq<char>,
}

impl View for PairingApp {
    type V = PairingAppView;

    open spec fn view(&self) -> PairingAppView {
        PairingAppView {
            key: self.key@,
            display_name: self.display_name@,
            bundle_fragment: self.bundle_fragment@,
            file_path: self.file_path@,
        }
    }
}

pub open spec fn app_row(
    key: Seq<char>,
    display_name: Seq<char>,
    bundle_fragment: Seq<char>,
    file_path: Seq<char>,
) -> PairingAppView {
    PairingAppView { key, display_name, bundle_fragment, file_path }
}

/// The known apps.
pub open spec fn known_apps() -> Seq<PairingAppView> {
    seq![
        app_row(
            "sidestore"@,
            "SideStore"@,
            "SideStore"@,
            "ALTPairingFile.mobiledevicepairing"@,
        ),
        app_row(
            "livecont"@,
            "LiveContainer"@,
            "livecontainer"@,
            "SideStore/Documents/ALTPairingFile.mobiledevicepairing"@,
        ),
        app_row("feather"@, "Feather"@, "crysalis.feather"@, "pairingFile.plist"@),
        app_row("stikdebug"@, "StikDebug"@, "stik.stikdebug"@, "pairingFile.plist"@),
        app_row("sparebox"@, "SparseBox"@, "Flintrules.SparseBox"@, "pairingFile.plist"@),
        app_row("protokolle"@, "Protokolle"@, "khcrysalis.Protokolle"@, "pairingFile.plist"@),
        app_row("antrag"@, "Antrag"@, "antrag"@, "pairingFile.plist"@),
    ]
}

/// Apps with each taken by its view.
pub open spec fn app_views(apps: Seq<PairingApp>) -> Seq<PairingAppView> {
    apps.map_values(|a: PairingApp| a@)
}

/// The known apps.
pub fn pairing_apps() -> (r: Vec<PairingApp>)
    ensures
        app_views(r@) == known_apps(),
{
    let mut apps: Vec<PairingApp> = Vec::new();
    apps.push(
        PairingApp {
            key: "sidestore",
            display_name: "SideStore",
            bundle_fragment: "SideStore",
            file_path: "ALTPairingFile.mobiledevicepairing",
        },
    );
    apps.push(
        PairingApp {
            key: "livecont",
            display_name: "LiveContainer",
            bundle_fragment: "livecontainer",
            file_path: "SideStore/Documents/ALTPairingFile.mobiledevicepairing",
        },
    );
    apps.push(
        PairingApp {
            key: "feather",
            display_name: "Feather",
            bundle_fragment: "crysalis.feather",
            file_path: "pairingFile.plist",
        },
    );
    apps.push(
        PairingApp {
            key: "stikdebug",
            display_name: "StikDebug",
            bundle_fragment: "stik.stikdebug",
            file_path: "pairingFile.plist",
        },
    );
    apps.push(
        PairingApp {
            key: "sparebox",
            display_name: "SparseBox",
            bundle_fragment: "Flintrules.SparseBox",
            file_path: "pairingFile.plist",
        },
    );
    apps.push(
        PairingApp {
            key: "protokolle",
            display_name: "Protokolle",
            bundle_fragment: "khcrysalis.Protokolle",
            file_path: "pairingFile.plist",
        },
    );
    apps.push(
        PairingApp {
            key: "antrag",
            display_name: "Antrag",
            bundle_fragment: "antrag",
            file_path: "pairingFile.plist",
        },
    );
    assert(app_views(apps@) =~= known_apps());
    apps
}

/// The keys of apps, in order.
pub open spec fn keys_of(apps: Seq<PairingAppView>) -> Seq<Seq<char>> {
    apps.map_values(|a: PairingAppView| a.key)
}

/// The first app with the given key.
pub open spec fn app_with_key(apps: Seq<PairingAppView>, key: Seq<char>) -> Option<PairingAppView>
    decreases apps.len(),
{
    if apps.len() == 0 {
        None
    } else {
        match app_with_key(apps.drop_last(), key) {
            Some(a) => Some(a),
            None => if apps.last().key == key {
                Some(apps.last())
            } else {
                None
            },
        }
    }
}

/// The app that a key names; a key that names none is answered with all keys.
pub open spec fn named_app(key: Seq<char>) -> Result<PairingAppView, ErrorView> {
    match app_with_key(known_apps(), key) {
        Some(a) => Ok(a),
        None => Err(
            error::failure(
                ErrorKind::Other,
                "App '"@ + key + "' desconocida. Opciones: "@ + text::joined(
                    keys_of(known_apps()),
                    ", "@,
                ),
            ),
        ),
    }
}

/// Apps further on do not change which one is first.
proof fn lemma_app_found_early(apps: Seq<PairingAppView>, key: Seq<char>, n: int)
    requires
        0 <= n <= apps.len(),
        app_with_key(apps.take(n), key) is Some,
    ensures
        app_with_key(apps, key) == app_with_key(apps.take(n), key),
    decreases apps.len() - n,
{
    if n == apps.len() {
        assert(apps.take(n) =~= apps);
    } else {
        assert(apps.take(n + 1).drop_last() =~= apps.take(n));
        lemma_app_found_early(apps, key, n + 1);
    }
}

fn all_keys(apps: &Vec<PairingApp>) -> (r: String)
    ensures
        r@ == text::joined(keys_of(app_views(apps@)), ", "@),
{
    let mut keys: Vec<String> = Vec::new();
    let mut i: usize = 0;
    while i < apps.len()
        invariant
            i <= apps@.len(),
            text::texts(keys@) == keys_of(app_views(apps@)).take(i as int),
        decreases apps@.len() - i,
    {
        let ghost before = keys@;
        keys.push(apps[i].key.to_owned());
        proof {
            let all = keys_of(app_views(apps@));
            assert(all[i as int] == apps@[i as int].key@);
            assert(all.take(i + 1) =~= all.take(i as int).push(all[i as int]));
            assert(text::texts(keys@) =~= text::texts(before).push(all[i as int]));
        }
        i = i + 1;
    }
    proof {
        assert(keys_of(app_views(apps@)).take(i as int) =~= keys_of(app_views(apps@)));
    }
    text::join_texts(&keys, ", ")
}

/// The app that a key names.
pub fn pairing_app(key: &str) -> (r: Result<PairingApp, CliError>)
    ensures
        match r {
            Ok(app) => named_app(key@) == Ok::<PairingAppView, ErrorView>(app@),
            Err(e) => named_app(key@) == Err::<PairingAppView, ErrorView>(e@),
        },
{
    let apps = pairing_apps();
    let ghost all = known_apps();
    let mut i: usize = 0;
    while i < apps.len()
        invariant
            i <= apps@.len(),
            app_views(apps@) == all,
            all == known_apps(),
            app_with_key(all.take(i as int), key@) is None,
        decreases apps@.len() - i,
    {
        proof {
            assert(all.take(i + 1).drop_last() =~= all.take(i as int));
            assert(all[i as int] == apps@[i as int]@);
        }
        if text::same_text(apps[i].key, key) {
            proof {
                lemma_app_found_early(all, key@, i + 1);
            }
            return Ok(apps[i]);
        }
        i = i + 1;
    }
    proof {
        assert(all.take(i as int) =~= all);
    }
    let keys = all_keys(&apps);
    let mut detail = "App '".to_owned();
    detail.append(key);
    detail.append("' desconocida. Opciones: ");
    detail.append(keys.as_str());
    Err(CliError::Other(detail))
}

/// An app found on a device: its bundle identifier and what the device says of it.
#[derive(Debug)]
pub struct InstalledApp {
    pub bundle_id: String,
    pub info: plist::Value,
}

/// The display name in what a device says of an app: empty where there is none.
pub open spec fn display_name_in(info: plist::Value) -> Seq<char> {
    match property_list::dictionary_in(info) {
        Some(d) => match property_list::value_under(
            property_list::entries(d),
            "CFBundleDisplayName"@,
        ) {
            Some(v) => match property_list::string_in(v) {
                Some(s) => s,
                None => Seq::empty(),
            },
            None => Seq::empty(),
        },
        None => Seq::empty(),
    }
}

/// The display name in what a device says of an app.
pub fn display_name(info: &plist::Value) -> (r: String)
    ensures
        r@ == display_name_in(*info),
{
    match info.as_dictionary() {
        Some(d) => match d.get("CFBundleDisplayName") {
            Some(v) => match v.as_string() {
                Some(s) => s.to_owned(),
                None => String::new(),
            },
            None => String::new(),
        },
        None => String::new(),
    }
}

/// Whether an installed app is the wanted one: by its display name, or by a part of its bundle
/// identifier.
pub open spec fn is_wanted(installed: InstalledApp, app: PairingAppView) -> bool {
    ||| display_name_in(installed.info) == app.display_name
    ||| text::occurs_in(app.bundle_fragment, installed.bundle_id@)
}

/// The first installed app that is the wanted one.
pub open spec fn first_wanted(installed: Seq<InstalledApp>, app: PairingAppView) -> Option<int>
    decreases installed.len(),
{
    if installed.len() == 0 {
        None
    } else {
        match first_wanted(installed.drop_last(), app) {
            Some(i) => Some(i),
            None => if is_wanted(installed.last(), app) {
                Some(installed.len() - 1)
            } else {
                None
            },
        }
    }
}

/// The bundle identifier of the wanted app.
pub open spec fn wanted_bundle(installed: Seq<InstalledApp>, app: PairingAppView) -> Result<
    Seq<char>,
    ErrorView,
> {
    match first_wanted(installed, app) {
        Some(i) => Ok(installed[i].bundle_id@),
        None => Err(
            error::failure(
                ErrorKind::Device,
                "'"@ + app.display_name + "' no está instalado. Instálalo primero."@,
            ),
        ),
    }
}

/// What `first_wanted` finds is wanted and the first such; where it finds nothing, no app is.
proof fn lemma_first_wanted(installed: Seq<InstalledApp>, app: PairingAppView)
    ensures
        match first_wanted(installed, app) {
            Some(i) => 0 <= i < installed.len() && is_wanted(installed[i], app) && forall|j: int|
                0 <= j < i ==> !is_wanted(#[trigger] installed[j], app),
            None => forall|j: int|
                0 <= j < installed.len() ==> !is_wanted(#[trigger] installed[j], app),
        },
    decreases installed.len(),
{
    if installed.len() > 0 {
        let front = installed.drop_last();
        lemma_first_wanted(front, app);
        let end = match first_wanted(installed, app) {
            Some(i) => i,
            None => installed.len() as int,
        };
        assert forall|j: int| 0 <= j < end implies !is_wanted(#[trigger] installed[j], app) by {
            if j < front.len() {
                assert(front[j] == installed[j]);
            }
        }
    }
}

/// Apps further on do not change which one is first.
proof fn lemma_wanted_early(installed: Seq<InstalledApp>, app: PairingAppView, n: int)
    requires
        0 <= n <= installed.len(),
        first_wanted(installed.take(n), app) is Some,
    ensures
        first_wanted(installed, app) == first_wanted(installed.take(n), app),
    decreases installed.len() - n,
{
    if n == installed.len() {
        assert(installed.take(n) =~= installed);
    } else {
        assert(installed.take(n + 1).drop_last() =~= installed.take(n));
        lemma_wanted_early(installed, app, n + 1);
    }
}

/// The bundle identifier of the wanted app.
pub fn find_bundle(installed: &Vec<InstalledApp>, app: &PairingApp) -> (r: Result<
    String,
    CliError,
>)
    ensures
        match r {
            Ok(id) => wanted_bundle(installed@, app@) == Ok::<Seq<char>, ErrorView>(id@),
            Err(e) => wanted_bundle(installed@, app@) == Err::<Seq<char>, ErrorView>(e@),
        },
{
    let mut i: usize = 0;
    while i < installed.len()
        invariant
            i <= installed@.len(),
            first_wanted(installed@.take(i as int), app@) is None,
        decreases installed@.len() - i,
    {
        proof {
            assert(installed@.take(i + 1).drop_last() =~= installed@.take(i as int));
        }
        let name = display_name(&installed[i].info);
        if text::same_text(name.as_str(), app.display_name) || text::contains_text(
            installed[i].bundle_id.as_str(),
            app.bundle_fragment,
        ) {
            proof {
                lemma_wanted_early(installed@, app@, i + 1);
            }
            return Ok(installed[i].bundle_id.clone());
        }
        i = i + 1;
    }
    proof {
        assert(installed@.take(i as int) =~= installed@);
    }
    Err(
        CliError::Device(
            text::concat3("'", app.display_name, "' no está instalado. Instálalo primero."),
        ),
    )
}

/// Where one installed app is the wanted one and no other is, that one is found, in whatever
/// order the apps come.
pub proof fn law_only_match_is_found(installed: Seq<InstalledApp>, app: PairingAppView, i: int)
    requires
        0 <= i < installed.len(),
        is_wanted(installed[i], app),
        forall|j: int|
            0 <= j < installed.len() && j != i ==> !is_wanted(#[trigger] installed[j], app),
    ensures
        wanted_bundle(installed, app) == Ok::<Seq<char>, ErrorView>(installed[i].bundle_id@),
{
    lemma_first_wanted(installed, app);
}

/// An app is reported as not installed exactly where no installed app is the wanted one.
pub proof fn law_not_installed_means_absent(installed: Seq<InstalledApp>, app: PairingAppView)
    ensures
        wanted_bundle(installed, app) is Err <==> forall|j: int|
            0 <= j < installed.len() ==> !is_wanted(#[trigger] installed[j], app),
{
    lemma_first_wanted(installed, app);
}

/// The directory, in the documents of an app, of a file with the given path.
pub open spec fn directory_of(path: Seq<char>) -> Seq<char> {
    "/Documents/"@ + text::before_last(path, '/')
}

/// A path in the documents of an app.
pub open spec fn document_at(path: Seq<char>) -> Seq<char> {
    "/Documents/"@ + path
}

/// The directory that has to exist before a file is written.
pub fn document_directory(path: &str) -> (r: String)
    ensures
        r@ == directory_of(path@),
{
    let parent = text::text_before_last(path, '/');
    text::concat2("/Documents/", parent.as_str())
}

/// The path of a file in the documents of an app.
pub fn document_path(path: &str) -> (r: String)
    ensures
        r@ == document_at(path@),
{
    text::concat2("/Documents/", path)
}

/// The file lies directly in the directory that is made for it: behind the directory come a
/// slash, where the path has one, and a name without slashes.
pub proof fn law_directory_holds_the_file(path: Seq<char>)
    ensures
        !text::after_last(path, '/').contains('/'),
        path.contains('/') ==> document_at(path) == directory_of(path).push('/')
            + text::after_last(path, '/'),
        !path.contains('/') ==> document_at(path) == directory_of(path) + path,
{
    text::lemma_around_last(path, '/');
    if path.contains('/') {
        assert(document_at(path) =~= directory_of(path).push('/') + text::after_last(path, '/'));
    } else {
        assert(document_at(path) =~= directory_of(path) + path);
    }
}

/// No two known apps have the same key.
pub proof fn law_app_keys_are_distinct()
    ensures
        forall|i: int, j: int|
            0 <= i < j < known_apps().len() ==> known_apps()[i].key != known_apps()[j].key,
{
    reveal_strlit("sidestore");
    reveal_strlit("livecont");
    reveal_strlit("feather");
    reveal_strlit("stikdebug");
    reveal_strlit("sparebox");
    reveal_strlit("protokolle");
    reveal_strlit("antrag");
    assert forall|i: int, j: int| 0 <= i < j < known_apps().len() implies known_apps()[i].key
        != known_apps()[j].key by {
        let a = known_apps()[i].key;
        let b = known_apps()[j].key;
        assert(a.len() != b.len() || a[0] != b[0] || a[1] != b[1]);
    }
}

/// Each known app is found by its key.
pub proof fn law_each_app_is_found_by_its_key(i: int)
    requires
        0 <= i < known_apps().len(),
    ensures
        named_app(known_apps()[i].key) == Ok::<PairingAppView, ErrorView>(known_apps()[i]),
{
    law_app_keys_are_distinct();
    let all = known_apps();
    let key = all[i].key;
    lemma_absent_before(all, key, i);
    assert(all.take(i + 1).drop_last() =~= all.take(i));
    assert(all.take(i + 1).last() == all[i]);
    lemma_app_found_early(all, key, i + 1);
}

proof fn lemma_absent_before(apps: Seq<PairingAppView>, key: Seq<char>, n: int)
    requires
        0 <= n <= apps.len(),
        forall|j: int| 0 <= j < n ==> (#[trigger] apps[j]).key != key,
    ensures
        app_with_key(apps.take(n), key) is None,
    decreases n,
{
    if n > 0 {
        lemma_absent_before(apps, key, n - 1);
        assert(apps.take(n).drop_last() =~= apps.take(n - 1));
        assert(apps.take(n).last() == apps[n - 1]);
    }
}

/// The app that a SideStore release is paired with is a known one.
pub proof fn law_release_has_a_known_app(nightly: bool, live_container: bool)
    ensures
        named_app(crate::ipa::release(nightly, live_container).app_key) is Ok,
{
    law_each_app_is_found_by_its_key(0);
    law_each_app_is_found_by_its_key(1);
}

/// Every file goes into the app's documents: what is opened is `/Documents/` and then exactly the
/// path, and the directory made for it is `/Documents/` and then the part of the path before its
/// last slash, or nothing where it has none.
pub proof fn law_files_go_into_the_documents(path: Seq<char>, parent: Seq<char>, name: Seq<char>)
    requires
        !name.contains('/'),
    ensures
        document_at(path).len() == path.len() + 11,
        document_at(path).take(11) == seq!['/', 'D', 'o', 'c', 'u', 'm', 'e', 'n', 't', 's', '/'],
        document_at(path).skip(11) == path,
        directory_of(path).len() >= 11,
        directory_of(path).take(11) == seq!['/', 'D', 'o', 'c', 'u', 'm', 'e', 'n', 't', 's', '/'],
        directory_of(parent.push('/') + name).skip(11) == parent,
        directory_of(name).len() == 11,
{
    reveal_strlit("/Documents/");
    let documents = seq!['/', 'D', 'o', 'c', 'u', 'm', 'e', 'n', 't', 's', '/'];
    assert(document_at(path).take(11) =~= documents);
    assert(document_at(path).skip(11) =~= path);
    assert(directory_of(path).take(11) =~= documents);
    text::lemma_around_last(name, '/');
    let whole = parent.push('/') + name;
    text::lemma_last_position(whole, '/');
    let p = text::last_position(whole, '/');
    assert(whole[parent.len() as int] == '/');
    if p > parent.len() {
        assert(whole[p] == name[p - parent.len() - 1]);
        assert(name.contains(name[p - parent.len() - 1]));
    }
    assert(text::before_last(whole, '/') =~= parent);
    assert(directory_of(whole).skip(11) =~= parent);
}

/// The view of an app, and the keys of apps, hold what the app holds.
pub proof fn law_an_app_is_seen_field_by_field(app: PairingApp, apps: Seq<PairingAppView>, i: int)
    requires
        0 <= i < apps.len(),
    ensures
        app@.key == app.key@,
        app@.display_name == app.display_name@,
        app@.bundle_fragment == app.bundle_fragment@,
        app@.file_path == app.file_path@,
        keys_of(apps).len() == apps.len(),
        keys_of(apps)[i] == apps[i].key,
{
}

/// A key that is that of no known app is answered with the key itself and then, the same for every
/// such key, all keys that are known.
pub proof fn law_an_unknown_key_is_named(key: Seq<char>)
    requires
        forall|i: int| 0 <= i < known_apps().len() ==> (#[trigger] known_apps()[i]).key != key,
    ensures
        named_app(key) matches Err(e) && e.kind == ErrorKind::Other && e.detail == "App '"@ + key
            + "' desconocida. Opciones: "@ + text::joined(keys_of(known_apps()), ", "@),
{
    let all = known_apps();
    lemma_absent_before(all, key, all.len() as int);
    assert(all.take(all.len() as int) =~= all);
}

/// The display name of an app is the string under `CFBundleDisplayName` in what the device says
/// of it, as it stands there, and empty where there is no such string.
pub proof fn law_the_display_name_is_read(
    info: plist::Value,
    d: plist::Dictionary,
    v: plist::Value,
    s: Seq<char>,
)
    ensures
        property_list::dictionary_in(info) is None ==> display_name_in(info).len() == 0,
        property_list::dictionary_in(info) == Some(d) && property_list::value_under(
            property_list::entries(d),
            "CFBundleDisplayName"@,
        ) is None ==> display_name_in(info).len() == 0,
        property_list::dictionary_in(info) == Some(d) && property_list::value_under(
            property_list::entries(d),
            "CFBundleDisplayName"@,
        ) == Some(v) && property_list::string_in(v) is None ==> display_name_in(info).len() == 0,
        property_list::dictionary_in(info) == Some(d) && property_list::value_under(
            property_list::entries(d),
            "CFBundleDisplayName"@,
        ) == Some(v) && property_list::string_in(v) == Some(s) ==> display_name_in(info) == s,
{
}

/// An installed app is the wanted one exactly where it has the display name, or the part of a
/// bundle identifier somewhere in its own.
pub proof fn law_an_app_is_known_by_name_or_fragment(installed: InstalledApp, app: PairingAppView)
    ensures
        is_wanted(installed, app) <==> display_name_in(installed.info) == app.display_name || (
        exists|a: Seq<char>, b: Seq<char>|
            installed.bundle_id@ == #[trigger] (a + app.bundle_fragment + b)),
{
    text::law_a_pattern_occurs_between(app.bundle_fragment, installed.bundle_id@);
}

/// Of several installed apps that are wanted the first one is taken, by its bundle identifier as
/// it is; where none is, the failure names the app that is missing.
pub proof fn law_the_first_wanted_app_is_taken(
    installed: Seq<InstalledApp>,
    app: PairingAppView,
    i: int,
)
    ensures
        0 <= i < installed.len() && is_wanted(installed[i], app) && (forall|j: int|
            0 <= j < i ==> !is_wanted(#[trigger] installed[j], app)) ==> wanted_bundle(
            installed,
            app,
        ) == Ok::<Seq<char>, ErrorView>(installed[i].bundle_id@),
        (forall|j: int| 0 <= j < installed.len() ==> !is_wanted(#[trigger] installed[j], app)) ==> (
        wanted_bundle(installed, app) matches Err(e) && e.kind == ErrorKind::Device && e.detail
            == "'"@ + app.display_name + "' no está instalado. Instálalo primero."@),
{
    lemma_first_wanted(installed, app);
    if 0 <= i < installed.len() && is_wanted(installed[i], app) {
        if let Some(k) = first_wanted(installed, app) {
            assert(is_wanted(installed[k], app));
        }
    }
}

/// The keys of apps are those of each one, in the order of the apps.
pub proof fn law_every_key_is_offered(apps: Seq<PairingAppView>, i: int)
    ensures
        keys_of(apps).len() == apps.len(),
        0 <= i < apps.len() ==> keys_of(apps)[i] == apps[i].key,
{
}

} // verus!
