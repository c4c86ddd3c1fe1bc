//! The launcher's rules: registering and removing applications, the
//! catalog built from stored rows, and starting Polaris.

use vstd::prelude::*;

use base64::Engine;

use crate::settings::{AppCard, RegistryCatalog};
use crate::text::{owned, trim, trimmed};

verus! {

/// The standard, padded Base64 text of some bytes.
pub uninterp spec fn base64_standard(bytes: Seq<u8>) -> Seq<char>;

/// The length of the padded Base64 text of `n` bytes.
pub open spec fn base64_len(n: nat) -> nat {
    4 * ((n + 2) / 3)
}

/// Trusted: `base64::engine::general_purpose::STANDARD.encode` gives the
/// padded Base64 text of its input, four characters for every started group
/// of three bytes. It panics when that length does not fit in `usize`,
/// which `requires` rules out.
#[verifier::external_body]
fn encode_base64(bytes: &[u8]) -> (r: String)
    requires
        base64_len(bytes@.len()) <= usize::MAX,
    ensures
        r@ == base64_standard(bytes@),
        r@.len() == base64_len(bytes@.len()),
{
    base64::engine::general_purpose::STANDARD.encode(bytes)
}

/// A stored application: name, description, path and icon bytes.
pub struct AppRow {
    pub name: String,
    pub description: String,
    pub path: String,
    pub icon: Option<Vec<u8>>,
}

/// The icon of a card: the Base64 text of the stored bytes.
pub open spec fn icon_text(icon: Option<Vec<u8>>) -> Option<Seq<char>> {
    match icon {
        Some(b) => Some(base64_standard(b@)),
        None => None,
    }
}

/// An icon small enough to encode.
pub open spec fn icon_fits(row: AppRow) -> bool {
    match row.icon {
        Some(b) => base64_len(b@.len()) <= usize::MAX,
        None => true,
    }
}

/// The launcher's catalog from stored rows, in row order, each icon as
/// Base64 text so that the page can show it directly.
pub fn registry_catalog_from_rows(rows: Vec<AppRow>) -> (r: RegistryCatalog)
    requires
        forall|i: int| 0 <= i < rows@.len() ==> icon_fits(#[trigger] rows@[i]),
    ensures
        r.apps@.len() == rows@.len(),
        forall|i: int|
            0 <= i < rows@.len() ==> {
                let c = #[trigger] r.apps@[i];
                &&& c.name == rows@[i].name
                &&& c.description == rows@[i].description
                &&& c.path == rows@[i].path
                &&& crate::patterns::opt_view(c.icon_data) == icon_text(rows@[i].icon)
            },
{
    let ghost orig = rows@;
    let mut rest = rows;
    let mut apps: Vec<AppCard> = Vec::new();
    while rest.len() > 0
        invariant
            apps@.len() + rest@.len() == orig.len(),
            rest@ == orig.subrange(apps@.len() as int, orig.len() as int),
            forall|i: int| 0 <= i < orig.len() ==> icon_fits(#[trigger] orig[i]),
            forall|i: int|
                0 <= i < apps@.len() ==> {
                    let c = #[trigger] apps@[i];
                    &&& c.name == orig[i].name
                    &&& c.description == orig[i].description
                    &&& c.path == orig[i].path
                    &&& crate::patterns::opt_view(c.icon_data) == icon_text(orig[i].icon)
                },
        decreases rest.len(),
    {
        let ghost k = apps@.len() as int;
        let row = rest.remove(0);
        assert(row == orig[k]);
        assert(icon_fits(orig[k]));
        let AppRow { name, description, path, icon } = row;
        let icon_data = match icon {
            Some(bytes) => Some(encode_base64(bytes.as_slice())),
            None => None,
        };
        apps.push(AppCard { name, description, path, icon_data });
        assert(rest@ =~= orig.subrange(apps@.len() as int, orig.len() as int));
    }
    RegistryCatalog { apps }
}

/// Checks a registration: the file must exist and the name, trimmed, must
/// not be empty; gives the trimmed name.
pub fn check_app_registration(path_is_file: bool, name: &str) -> (r: Result<String, String>)
    ensures
        !path_is_file ==> (r matches Err(e) && e@ == "指定されたファイルが見つかりません。"@),
        path_is_file && trimmed(name@).len() == 0 ==> (r matches Err(e) && e@
            == "アプリ名を入力してください。"@),
        path_is_file && trimmed(name@).len() > 0 ==> (r matches Ok(n) && n@ == trimmed(name@)),
{
    if !path_is_file {
        return Err(owned("指定されたファイルが見つかりません。"));
    }
    let n = trim(name);
    if n.as_str().unicode_len() == 0 {
        return Err(owned("アプリ名を入力してください。"));
    }
    Ok(n)
}

/// The error of a failed registration: a friendly one when the path is
/// already registered.
pub fn app_insert_error(unique_violation: bool, err: &str) -> (r: String)
    ensures
        unique_violation ==> r@ == "同じパスのアプリが既に登録されています。"@,
        !unique_violation ==> r@ == "アプリの登録に失敗しました"@ + ": "@ + err@,
{
    if unique_violation {
        owned("同じパスのアプリが既に登録されています。")
    } else {
        crate::utils::command_err("アプリの登録に失敗しました", err)
    }
}

/// The result of removing an application, from the count of removed rows.
pub fn app_delete_result(affected: usize) -> (r: Result<(), String>)
    ensures
        affected == 0 ==> (r matches Err(e) && e@ == "該当するアプリが見つかりません。"@),
        affected > 0 ==> r is Ok,
{
    if affected == 0 {
        Err(owned("該当するアプリが見つかりません。"))
    } else {
        Ok(())
    }
}

/// The display name of an executable: the file must exist and a name must
/// have been found in it.
pub fn display_name_result(path_is_file: bool, found: Option<String>) -> (r: Result<String, String>)
    ensures
        !path_is_file ==> (r matches Err(e) && e@ == "指定されたファイルが見つかりません。"@),
        path_is_file && found is None ==> (r matches Err(e) && e@
            == "実行ファイルから表示名を取得できませんでした。"@),
        path_is_file ==> (found matches Some(n) ==> (r matches Ok(x) && x@ == n@)),
{
    if !path_is_file {
        return Err(owned("指定されたファイルが見つかりません。"));
    }
    match found {
        Some(n) => Ok(n),
        None => Err(owned("実行ファイルから表示名を取得できませんでした。")),
    }
}

/// What starting Polaris comes to.
pub enum PolarisStart {
    /// Nothing to do, with this reply.
    Running(String),
    /// Start this executable.
    Launch(String),
    /// Refused with this error.
    Refused(String),
}

/// Decides how to start Polaris, given whether it runs and its executable
/// with whether that file exists.
pub fn plan_polaris_start(running: bool, exe: Option<(String, bool)>) -> (r: PolarisStart)
    ensures
        running ==> (r matches PolarisStart::Running(m) && m@ == "Polaris は既に起動しています。"@),
        !running && exe is None ==> (r matches PolarisStart::Refused(e) && e@
            == "Polaris の実行ファイルパスを特定できませんでした"@),
        !running ==> (exe matches Some((p, exists)) ==> (!exists ==> (r matches PolarisStart::Refused(e) && e@
            == "Polaris.exe が見つかりません。"@))),
        !running ==> (exe matches Some((p, exists)) ==> (exists ==> (r matches PolarisStart::Launch(x) && x@ == p@))),
{
    if running {
        return PolarisStart::Running(owned("Polaris は既に起動しています。"));
    }
    match exe {
        None => PolarisStart::Refused(owned("Polaris の実行ファイルパスを特定できませんでした")),
        Some((p, exists)) => if exists {
            PolarisStart::Launch(p)
        } else {
            PolarisStart::Refused(owned("Polaris.exe が見つかりません。"))
        },
    }
}

/// The reply once Polaris was started.
pub fn polaris_started_message() -> (r: String)
    ensures
        r@ == "Polaris を起動しました。"@,
{
    owned("Polaris を起動しました。")
}

} // verus!
