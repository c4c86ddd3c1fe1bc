//! The settings of StellaRecord and of Polaris as the registry keeps them,
//! the management dialog's view of them, and the all-or-nothing saving of
//! that dialog.

use vstd::prelude::*;
use vstd::string::*;

use crate::text::{concat2, concat3, owned};

verus! {

/// The registry key of StellaRecord's settings, under the current user.
pub const STELLA_RECORD_KEY: &'static str = "Software\\CosmoArtsStore\\StellaRecord";

/// The registry key of Polaris's settings, under the current user.
pub const POLARIS_KEY: &'static str = "Software\\CosmoArtsStore\\Polaris";

/// The archive warning threshold that applies when none is stored: 300 MiB.
pub const DEFAULT_CAPACITY: u64 = 314_572_800;

/// One mebibyte in bytes.
pub const ONE_MB_BYTES: u64 = 1_048_576;

/// The largest archive warning threshold in mebibytes (10 TiB).
pub const MAX_ARCHIVE_LIMIT_MB: u64 = 10_485_760;

/// The archive settings of Polaris that StellaRecord reads and writes.
pub struct PolarisSetting {
    pub archive_path: String,
    pub capacity_threshold_bytes: u64,
}

/// [`PolarisSetting`] with its text as characters.
pub struct PolarisSettingView {
    pub archive_path: Seq<char>,
    pub capacity_threshold_bytes: u64,
}

impl PolarisSetting {
    pub open spec fn view(&self) -> PolarisSettingView {
        PolarisSettingView {
            archive_path: self.archive_path@,
            capacity_threshold_bytes: self.capacity_threshold_bytes,
        }
    }

    /// A copy of the setting.
    pub fn copy(&self) -> (r: Self)
        ensures
            r@ == self@,
    {
        PolarisSetting {
            archive_path: self.archive_path.clone(),
            capacity_threshold_bytes: self.capacity_threshold_bytes,
        }
    }
}

impl Default for PolarisSetting {
    /// No archive path, and the default threshold.
    fn default() -> (r: Self)
        ensures
            r@.archive_path == Seq::<char>::empty(),
            r.capacity_threshold_bytes == DEFAULT_CAPACITY,
    {
        PolarisSetting { archive_path: String::new(), capacity_threshold_bytes: DEFAULT_CAPACITY }
    }
}

/// StellaRecord's archive and startup settings.
pub struct StellaRecordSetting {
    pub archive_path: String,
    pub db_path: String,
    pub enable_startup: bool,
    pub startup_preference_set: bool,
}

/// [`StellaRecordSetting`] with its texts as characters.
pub struct StellaRecordSettingView {
    pub archive_path: Seq<char>,
    pub db_path: Seq<char>,
    pub enable_startup: bool,
    pub startup_preference_set: bool,
}

impl StellaRecordSetting {
    pub open spec fn view(&self) -> StellaRecordSettingView {
        StellaRecordSettingView {
            archive_path: self.archive_path@,
            db_path: self.db_path@,
            enable_startup: self.enable_startup,
            startup_preference_set: self.startup_preference_set,
        }
    }

    /// A copy of the setting.
    pub fn copy(&self) -> (r: Self)
        ensures
            r@ == self@,
    {
        StellaRecordSetting {
            archive_path: self.archive_path.clone(),
            db_path: self.db_path.clone(),
            enable_startup: self.enable_startup,
            startup_preference_set: self.startup_preference_set,
        }
    }

    /// The directory of the managed archives: the configured one, or else
    /// what `data_dir` finds (called only then).
    pub fn get_effective_archive_dir<F: FnOnce() -> Option<String>>(&self, data_dir: F) -> (r:
        Option<String>)
        requires
            self.archive_path@.len() == 0 ==> data_dir.requires(()),
        ensures
            self.archive_path@.len() > 0 ==> (r matches Some(p) && p@ == self.archive_path@),
            self.archive_path@.len() == 0 ==> data_dir.ensures((), r),
    {
        if self.archive_path.as_str().unicode_len() > 0 {
            Some(self.archive_path.clone())
        } else {
            data_dir()
        }
    }

    /// The main database's path: the configured one, or else what
    /// `default_path` finds (called only then).
    pub fn get_effective_db_path<F: FnOnce() -> Option<String>>(&self, default_path: F) -> (r:
        Option<String>)
        requires
            self.db_path@.len() == 0 ==> default_path.requires(()),
        ensures
            self.db_path@.len() > 0 ==> (r matches Some(p) && p@ == self.db_path@),
            self.db_path@.len() == 0 ==> default_path.ensures((), r),
    {
        if self.db_path.as_str().unicode_len() > 0 {
            Some(self.db_path.clone())
        } else {
            default_path()
        }
    }
}

impl Default for StellaRecordSetting {
    /// Empty paths, startup off, and no choice recorded.
    fn default() -> (r: Self)
        ensures
            r@.archive_path == Seq::<char>::empty(),
            r@.db_path == Seq::<char>::empty(),
            !r.enable_startup,
            !r.startup_preference_set,
    {
        StellaRecordSetting {
            archive_path: String::new(),
            db_path: String::new(),
            enable_startup: false,
            startup_preference_set: false,
        }
    }
}

/// An application the launcher shows.
pub struct AppCard {
    pub name: String,
    pub description: String,
    pub path: String,
    pub icon_data: Option<String>,
}

/// The applications the launcher shows.
pub struct RegistryCatalog {
    pub apps: Vec<AppCard>,
}

impl Default for RegistryCatalog {
    /// No application.
    fn default() -> (r: Self)
        ensures
            r.apps@.len() == 0,
    {
        RegistryCatalog { apps: Vec::new() }
    }
}

/// The values found under Polaris's key; `None` for one that is missing or
/// not of the expected type.
pub struct PolarisRegistryValues {
    pub archive_path: Option<String>,
    pub capacity_threshold_bytes: Option<u64>,
}

/// The values found under StellaRecord's key; `None` for one that is
/// missing or not of the expected type. Flags are stored as `0` or `1`.
pub struct StellaRecordRegistryValues {
    pub archive_path: Option<String>,
    pub db_path: Option<String>,
    pub enable_startup: Option<u32>,
    pub startup_preference_set: Option<u32>,
}

fn text_or_empty(v: Option<String>) -> (r: String)
    ensures
        r@ == (match v {
            Some(s) => s@,
            None => Seq::<char>::empty(),
        }),
{
    match v {
        Some(s) => s,
        None => String::new(),
    }
}

fn flag_or(v: Option<u32>, default: bool) -> (r: bool)
    ensures
        r == (match v {
            Some(n) => n != 0,
            None => default,
        }),
{
    match v {
        Some(n) => n != 0,
        None => default,
    }
}

/// Polaris's settings from the values found under its key.
pub open spec fn polaris_from_values(archive_path: Option<Seq<char>>, capacity: Option<u64>) -> PolarisSettingView {
    PolarisSettingView {
        archive_path: match archive_path {
            Some(s) => s,
            None => Seq::empty(),
        },
        capacity_threshold_bytes: match capacity {
            Some(n) => n,
            None => DEFAULT_CAPACITY,
        },
    }
}

/// StellaRecord's settings from the values found under its key.
pub open spec fn stella_from_values(
    archive_path: Option<Seq<char>>,
    db_path: Option<Seq<char>>,
    enable_startup: Option<u32>,
    startup_preference_set: Option<u32>,
) -> StellaRecordSettingView {
    StellaRecordSettingView {
        archive_path: match archive_path {
            Some(s) => s,
            None => Seq::empty(),
        },
        db_path: match db_path {
            Some(s) => s,
            None => Seq::empty(),
        },
        enable_startup: match enable_startup {
            Some(n) => n != 0,
            None => false,
        },
        startup_preference_set: match startup_preference_set {
            Some(n) => n != 0,
            None => false,
        },
    }
}

/// Polaris's settings from its key: the defaults when the key is missing;
/// otherwise an empty path for a missing path, and the default threshold
/// for a missing threshold.
pub fn load_polaris_setting(key: Option<PolarisRegistryValues>) -> (r: PolarisSetting)
    ensures
        match key {
            None => r@.archive_path == Seq::<char>::empty() && r.capacity_threshold_bytes
                == DEFAULT_CAPACITY,
            Some(v) => r@ == polaris_from_values(
                crate::patterns::opt_view(v.archive_path),
                v.capacity_threshold_bytes,
            ),
        },
{
    match key {
        None => PolarisSetting::default(),
        Some(v) => PolarisSetting {
            archive_path: text_or_empty(v.archive_path),
            capacity_threshold_bytes: match v.capacity_threshold_bytes {
                Some(n) => n,
                None => DEFAULT_CAPACITY,
            },
        },
    }
}

/// StellaRecord's settings from its key: the defaults when the key is
/// missing; otherwise empty paths and cleared flags for missing values, a
/// flag being set when its stored number is not zero.
pub fn load_stellarecord_setting(key: Option<StellaRecordRegistryValues>) -> (r:
    StellaRecordSetting)
    ensures
        match key {
            None => r@.archive_path == Seq::<char>::empty() && r@.db_path == Seq::<char>::empty()
                && !r.enable_startup && !r.startup_preference_set,
            Some(v) => r@ == stella_from_values(
                crate::patterns::opt_view(v.archive_path),
                crate::patterns::opt_view(v.db_path),
                v.enable_startup,
                v.startup_preference_set,
            ),
        },
{
    match key {
        None => StellaRecordSetting::default(),
        Some(v) => StellaRecordSetting {
            archive_path: text_or_empty(v.archive_path),
            db_path: text_or_empty(v.db_path),
            enable_startup: flag_or(v.enable_startup, false),
            startup_preference_set: flag_or(v.startup_preference_set, false),
        },
    }
}

/// One value to write under a registry key.
pub enum RegistryWrite {
    Text { name: &'static str, value: String },
    Number64 { name: &'static str, value: u64 },
    Number32 { name: &'static str, value: u32 },
}

/// A registry value as name and content.
pub enum RegistryWriteView {
    Text(Seq<char>, Seq<char>),
    Number64(Seq<char>, u64),
    Number32(Seq<char>, u32),
}

impl RegistryWrite {
    pub open spec fn view(&self) -> RegistryWriteView {
        match self {
            RegistryWrite::Text { name, value } => RegistryWriteView::Text(name@, value@),
            RegistryWrite::Number64 { name, value } => RegistryWriteView::Number64(name@, *value),
            RegistryWrite::Number32 { name, value } => RegistryWriteView::Number32(name@, *value),
        }
    }
}

/// The views of registry writes.
pub open spec fn writes_view(w: Seq<RegistryWrite>) -> Seq<RegistryWriteView> {
    w.map_values(|x: RegistryWrite| x@)
}

/// The number a flag is stored as.
pub open spec fn flag_number(b: bool) -> u32 {
    if b {
        1
    } else {
        0
    }
}

/// The values saving Polaris's settings writes, in order.
pub open spec fn polaris_writes(p: PolarisSettingView) -> Seq<RegistryWriteView> {
    seq![
        RegistryWriteView::Text("ArchivePath"@, p.archive_path),
        RegistryWriteView::Number64("CapacityThresholdBytes"@, p.capacity_threshold_bytes),
    ]
}

/// The values saving StellaRecord's settings writes, in order.
pub open spec fn stella_writes(s: StellaRecordSettingView) -> Seq<RegistryWriteView> {
    seq![
        RegistryWriteView::Text("ArchivePath"@, s.archive_path),
        RegistryWriteView::Text("DbPath"@, s.db_path),
        RegistryWriteView::Number32("EnableStartup"@, flag_number(s.enable_startup)),
        RegistryWriteView::Number32("StartupPreferenceSet"@, flag_number(s.startup_preference_set)),
    ]
}

/// The name a write stores under.
pub open spec fn write_name(w: RegistryWriteView) -> Seq<char> {
    match w {
        RegistryWriteView::Text(n, _) => n,
        RegistryWriteView::Number64(n, _) => n,
        RegistryWriteView::Number32(n, _) => n,
    }
}

/// What is stored under `name` after `writes`: the last write of it.
pub open spec fn stored_value(writes: Seq<RegistryWriteView>, name: Seq<char>) -> Option<RegistryWriteView>
    decreases writes.len(),
{
    if writes.len() == 0 {
        None
    } else if write_name(writes.last()) == name {
        Some(writes.last())
    } else {
        stored_value(writes.drop_last(), name)
    }
}

/// The text stored under `name`, read as a text.
pub open spec fn stored_text(writes: Seq<RegistryWriteView>, name: Seq<char>) -> Option<Seq<char>> {
    match stored_value(writes, name) {
        Some(RegistryWriteView::Text(_, v)) => Some(v),
        _ => None,
    }
}

/// The number stored under `name`, read as a 64-bit number.
pub open spec fn stored_u64(writes: Seq<RegistryWriteView>, name: Seq<char>) -> Option<u64> {
    match stored_value(writes, name) {
        Some(RegistryWriteView::Number64(_, v)) => Some(v),
        _ => None,
    }
}

/// The number stored under `name`, read as a 32-bit number.
pub open spec fn stored_u32(writes: Seq<RegistryWriteView>, name: Seq<char>) -> Option<u32> {
    match stored_value(writes, name) {
        Some(RegistryWriteView::Number32(_, v)) => Some(v),
        _ => None,
    }
}

/// Polaris's settings read back after saving them are the saved settings.
pub proof fn law_polaris_settings_read_back(p: PolarisSettingView)
    ensures
        polaris_from_values(
            stored_text(polaris_writes(p), "ArchivePath"@),
            stored_u64(polaris_writes(p), "CapacityThresholdBytes"@),
        ) == p,
{
    reveal_strlit("ArchivePath");
    reveal_strlit("CapacityThresholdBytes");
    let w = polaris_writes(p);
    assert(w.drop_last() =~= seq![w[0]]);
    assert(w.drop_last().drop_last() =~= Seq::<RegistryWriteView>::empty());
    assert("ArchivePath"@ != "CapacityThresholdBytes"@) by {
        assert("ArchivePath"@.len() != "CapacityThresholdBytes"@.len());
    }
    assert(stored_value(w.drop_last(), "ArchivePath"@) == Some(w[0]));
    assert(stored_value(w, "ArchivePath"@) == Some(w[0]));
    assert(stored_value(w, "CapacityThresholdBytes"@) == Some(w[1]));
}

/// StellaRecord's settings read back after saving them are the saved
/// settings: paths as written, and each flag from the number it is stored as.
pub proof fn law_stella_settings_read_back(s: StellaRecordSettingView)
    ensures
        stella_from_values(
            stored_text(stella_writes(s), "ArchivePath"@),
            stored_text(stella_writes(s), "DbPath"@),
            stored_u32(stella_writes(s), "EnableStartup"@),
            stored_u32(stella_writes(s), "StartupPreferenceSet"@),
        ) == s,
{
    reveal_strlit("ArchivePath");
    reveal_strlit("DbPath");
    reveal_strlit("EnableStartup");
    reveal_strlit("StartupPreferenceSet");
    let w = stella_writes(s);
    let w3 = w.drop_last();
    let w2 = w3.drop_last();
    let w1 = w2.drop_last();
    assert(w3 =~= seq![w[0], w[1], w[2]]);
    assert(w2 =~= seq![w[0], w[1]]);
    assert(w1 =~= seq![w[0]]);
    assert(w1.drop_last() =~= Seq::<RegistryWriteView>::empty());
    assert("ArchivePath"@ != "DbPath"@) by {
        assert("ArchivePath"@.len() != "DbPath"@.len());
    }
    assert("ArchivePath"@ != "EnableStartup"@) by {
        assert("ArchivePath"@[0] != "EnableStartup"@[0]);
    }
    assert("ArchivePath"@ != "StartupPreferenceSet"@) by {
        assert("ArchivePath"@[0] != "StartupPreferenceSet"@[0]);
    }
    assert("DbPath"@ != "EnableStartup"@) by {
        assert("DbPath"@.len() != "EnableStartup"@.len());
    }
    assert("DbPath"@ != "StartupPreferenceSet"@) by {
        assert("DbPath"@.len() != "StartupPreferenceSet"@.len());
    }
    assert("EnableStartup"@ != "StartupPreferenceSet"@) by {
        assert("EnableStartup"@.len() != "StartupPreferenceSet"@.len());
    }
    let a = "ArchivePath"@;
    let d = "DbPath"@;
    let e = "EnableStartup"@;
    let c = "StartupPreferenceSet"@;
    assert(stored_value(w1, a) == Some(w[0]));
    assert(stored_value(w2, a) == Some(w[0]));
    assert(stored_value(w3, a) == Some(w[0]));
    assert(stored_value(w, a) == Some(w[0]));
    assert(stored_value(w2, d) == Some(w[1]));
    assert(stored_value(w3, d) == Some(w[1]));
    assert(stored_value(w, d) == Some(w[1]));
    assert(stored_value(w3, e) == Some(w[2]));
    assert(stored_value(w, e) == Some(w[2]));
    assert(stored_value(w, c) == Some(w[3]));
}

/// What saving Polaris's settings writes, in order.
pub fn save_polaris_setting(setting: &PolarisSetting) -> (r: Vec<RegistryWrite>)
    ensures
        writes_view(r@) == polaris_writes(setting@),
{
    let r = vec![
        RegistryWrite::Text { name: "ArchivePath", value: setting.archive_path.clone() },
        RegistryWrite::Number64 {
            name: "CapacityThresholdBytes",
            value: setting.capacity_threshold_bytes,
        },
    ];
    assert(writes_view(r@) =~= polaris_writes(setting@));
    r
}

/// What saving StellaRecord's settings writes, in order.
pub fn save_stellarecord_setting(setting: &StellaRecordSetting) -> (r: Vec<RegistryWrite>)
    ensures
        writes_view(r@) == stella_writes(setting@),
{
    let enable: u32 = if setting.enable_startup {
        1
    } else {
        0
    };
    let chosen: u32 = if setting.startup_preference_set {
        1
    } else {
        0
    };
    let r = vec![
        RegistryWrite::Text { name: "ArchivePath", value: setting.archive_path.clone() },
        RegistryWrite::Text { name: "DbPath", value: setting.db_path.clone() },
        RegistryWrite::Number32 { name: "EnableStartup", value: enable },
        RegistryWrite::Number32 { name: "StartupPreferenceSet", value: chosen },
    ];
    assert(writes_view(r@) =~= stella_writes(setting@));
    r
}

/// The error for a registry key that could not be created.
pub fn create_key_error(path: &str, err: &str) -> (r: String)
    ensures
        r@ == "レジストリキーを作成できませんでした ["@ + path@ + "]"@ + ": "@ + err@,
{
    let context = concat3("レジストリキーを作成できませんでした [", path, "]");
    crate::utils::command_err(context.as_str(), err)
}

/// The error for a registry value that could not be written.
pub fn registry_write_error(name: &str, err: &str) -> (r: String)
    ensures
        r@ == name@ + " の書き込みに失敗しました"@ + ": "@ + err@,
{
    let context = concat2(name, " の書き込みに失敗しました");
    crate::utils::command_err(context.as_str(), err)
}

/// The settings dialog's state.
pub struct ManagementSettings {
    pub startup_enabled: bool,
    pub startup_preference_set: bool,
    pub archive_limit_mb: u64,
}

/// A byte threshold in whole mebibytes, rounded to the nearest (halves up)
/// and held between 1 and [`MAX_ARCHIVE_LIMIT_MB`]; the addition saturates.
pub open spec fn archive_limit_mb_of(bytes: u64) -> u64 {
    let sum = if bytes + ONE_MB_BYTES / 2 > u64::MAX {
        u64::MAX as int
    } else {
        bytes + ONE_MB_BYTES / 2
    };
    let mb = sum / (ONE_MB_BYTES as int);
    if mb < 1 {
        1
    } else if mb > MAX_ARCHIVE_LIMIT_MB {
        MAX_ARCHIVE_LIMIT_MB
    } else {
        mb as u64
    }
}

/// Shows a byte threshold in mebibytes.
pub fn bytes_to_archive_limit_mb(bytes: u64) -> (r: u64)
    ensures
        r == archive_limit_mb_of(bytes),
{
    let sum = bytes.saturating_add(ONE_MB_BYTES / 2);
    let mb = sum / ONE_MB_BYTES;
    if mb < 1 {
        1
    } else if mb > MAX_ARCHIVE_LIMIT_MB {
        MAX_ARCHIVE_LIMIT_MB
    } else {
        mb
    }
}

/// The error for a threshold outside 1 MB to 10 TB.
pub open spec fn limit_range_error() -> Seq<char> {
    "警告ラインは 1MB～10,485,760MB (10TB) の整数で指定してください"@
}

/// Turns a threshold in mebibytes into bytes, refusing one outside
/// 1 to [`MAX_ARCHIVE_LIMIT_MB`].
pub fn archive_limit_mb_to_bytes(mb: u64) -> (r: Result<u64, String>)
    ensures
        1 <= mb <= MAX_ARCHIVE_LIMIT_MB ==> r == Ok::<u64, String>((mb * ONE_MB_BYTES) as u64),
        !(1 <= mb <= MAX_ARCHIVE_LIMIT_MB) ==> (r matches Err(e) && e@ == limit_range_error()),
{
    if mb < 1 || mb > MAX_ARCHIVE_LIMIT_MB {
        return Err(owned("警告ラインは 1MB～10,485,760MB (10TB) の整数で指定してください"));
    }
    match mb.checked_mul(ONE_MB_BYTES) {
        Some(b) => Ok(b),
        None => Err(owned("警告ラインをバイト数へ変換できませんでした")),
    }
}

/// A threshold in whole mebibytes within the allowed range comes back
/// unchanged after conversion to bytes and back.
pub proof fn law_limit_roundtrip(mb: u64)
    requires
        1 <= mb <= MAX_ARCHIVE_LIMIT_MB,
    ensures
        archive_limit_mb_of((mb * ONE_MB_BYTES) as u64) == mb,
{
    let b = mb * ONE_MB_BYTES;
    assert(b <= MAX_ARCHIVE_LIMIT_MB * ONE_MB_BYTES) by (nonlinear_arith)
        requires
            mb <= MAX_ARCHIVE_LIMIT_MB,
            b == mb * ONE_MB_BYTES,
    ;
    assert((b + ONE_MB_BYTES / 2) / (ONE_MB_BYTES as int) == mb) by (nonlinear_arith)
        requires
            b == mb * ONE_MB_BYTES,
            ONE_MB_BYTES == 1_048_576,
    ;
}

/// The dialog's state from both settings.
pub fn build_management_settings(stella: &StellaRecordSetting, polaris: &PolarisSetting) -> (r:
    ManagementSettings)
    ensures
        r.startup_enabled == stella.enable_startup,
        r.startup_preference_set == stella.startup_preference_set,
        r.archive_limit_mb == archive_limit_mb_of(polaris.capacity_threshold_bytes),
{
    ManagementSettings {
        startup_enabled: stella.enable_startup,
        startup_preference_set: stella.startup_preference_set,
        archive_limit_mb: bytes_to_archive_limit_mb(polaris.capacity_threshold_bytes),
    }
}

/// Whether the user allowed importing at startup, and whether they chose.
pub struct StartupImportPreference {
    pub enabled: bool,
    pub preference_set: bool,
}

/// The state of importing at startup, with the places it uses.
pub struct StartupImportSettings {
    pub enabled: bool,
    pub preference_set: bool,
    pub log_archive_path: String,
    pub database_path: String,
}

/// The startup import dialog's state, or the error for a place that could
/// not be found (the archive directory first).
pub fn get_startup_import_settings(
    preference: &StartupImportPreference,
    log_archive_path: Option<String>,
    database_path: Option<String>,
) -> (r: Result<StartupImportSettings, String>)
    ensures
        log_archive_path is None ==> (r matches Err(e) && e@ == "ログ保存先を取得できませんでした。"@),
        log_archive_path is Some && database_path is None ==> (r matches Err(e) && e@
            == "DB保存先を取得できませんでした。"@),
        log_archive_path matches Some(a) ==> (database_path matches Some(d) ==> (r matches Ok(s)
            && s.enabled == preference.enabled && s.preference_set == preference.preference_set
            && s.log_archive_path@ == a@ && s.database_path@ == d@)),
{
    let a = match log_archive_path {
        Some(a) => a,
        None => return Err(owned("ログ保存先を取得できませんでした。")),
    };
    let d = match database_path {
        Some(d) => d,
        None => return Err(owned("DB保存先を取得できませんでした。")),
    };
    Ok(
        StartupImportSettings {
            enabled: preference.enabled,
            preference_set: preference.preference_set,
            log_archive_path: a,
            database_path: d,
        },
    )
}

/// Whether importing at startup runs: only when the user chose and allowed it.
pub fn startup_import_allowed(preference: &StartupImportPreference) -> (r: bool)
    ensures
        r == (preference.preference_set && preference.enabled),
{
    preference.preference_set && preference.enabled
}

/// Where saving the settings dialog stands.
#[derive(Clone, Copy, PartialEq, Eq, Structural, Debug)]
pub enum PersistStep {
    SavePolaris,
    SetStartup,
    SaveStella,
    RestoreStella,
    RestoreStartup,
    RestorePolaris,
    Finished,
}

/// The next piece of outside work while saving the settings dialog.
pub enum SettingsAction {
    /// Write Polaris's settings.
    SavePolaris(PolarisSetting),
    /// Register or unregister StellaRecord at login.
    SetStartup(bool),
    /// Write StellaRecord's settings.
    SaveStella(StellaRecordSetting),
    /// Saving is over, with this result.
    Finish(Result<(), String>),
}

/// [`SettingsAction`] with its texts as characters.
pub enum SettingsActionView {
    SavePolaris(PolarisSettingView),
    SetStartup(bool),
    SaveStella(StellaRecordSettingView),
    Finish(Result<(), Seq<char>>),
}

impl SettingsAction {
    pub open spec fn view(&self) -> SettingsActionView {
        match self {
            SettingsAction::SavePolaris(p) => SettingsActionView::SavePolaris(p@),
            SettingsAction::SetStartup(b) => SettingsActionView::SetStartup(*b),
            SettingsAction::SaveStella(s) => SettingsActionView::SaveStella(s@),
            SettingsAction::Finish(r) => SettingsActionView::Finish(
                match r {
                    Ok(()) => Ok(()),
                    Err(e) => Err(e@),
                },
            ),
        }
    }
}

/// The state of saving the settings dialog.
pub struct TxView {
    pub original_stella: StellaRecordSettingView,
    pub next_stella: StellaRecordSettingView,
    pub original_polaris: PolarisSettingView,
    pub next_polaris: PolarisSettingView,
    pub step: PersistStep,
    pub error: Option<Seq<char>>,
    pub rollback_errors: Seq<Seq<char>>,
}

/// Texts joined with a separator.
pub open spec fn join_texts(parts: Seq<Seq<char>>, sep: Seq<char>) -> Seq<char>
    decreases parts.len(),
{
    if parts.len() == 0 {
        Seq::empty()
    } else if parts.len() == 1 {
        parts[0]
    } else {
        join_texts(parts.drop_last(), sep) + sep + parts.last()
    }
}

/// The error of a failed save: the first failure, and the failures of the
/// restoring writes if there were any.
pub open spec fn persist_error(error: Seq<char>, rollback_errors: Seq<Seq<char>>) -> Seq<char> {
    if rollback_errors.len() == 0 {
        error
    } else {
        error + "。設定の復元にも失敗しました: "@ + join_texts(rollback_errors, " / "@)
    }
}

/// The result of a finished save.
pub open spec fn persist_result(t: TxView) -> Result<(), Seq<char>> {
    match t.error {
        None => Ok(()),
        Some(e) => Err(persist_error(e, t.rollback_errors)),
    }
}

/// The work each step asks for: the new values in order (Polaris, startup,
/// StellaRecord), then, after a failure, the original values in the
/// opposite order.
pub open spec fn action_for(t: TxView) -> SettingsActionView {
    match t.step {
        PersistStep::SavePolaris => SettingsActionView::SavePolaris(t.next_polaris),
        PersistStep::SetStartup => SettingsActionView::SetStartup(t.next_stella.enable_startup),
        PersistStep::SaveStella => SettingsActionView::SaveStella(t.next_stella),
        PersistStep::RestoreStella => SettingsActionView::SaveStella(t.original_stella),
        PersistStep::RestoreStartup => SettingsActionView::SetStartup(
            t.original_stella.enable_startup,
        ),
        PersistStep::RestorePolaris => SettingsActionView::SavePolaris(t.original_polaris),
        PersistStep::Finished => SettingsActionView::Finish(persist_result(t)),
    }
}

/// The state after the current step's work came back with `outcome`: a
/// failure while saving starts the restoring writes, a failure while
/// restoring is recorded and the restoring goes on.
pub open spec fn tx_next(t: TxView, outcome: Result<(), Seq<char>>) -> TxView {
    match t.step {
        PersistStep::SavePolaris | PersistStep::SetStartup | PersistStep::SaveStella => match outcome {
            Ok(()) => TxView {
                step: if t.step == PersistStep::SavePolaris {
                    PersistStep::SetStartup
                } else if t.step == PersistStep::SetStartup {
                    PersistStep::SaveStella
                } else {
                    PersistStep::Finished
                },
                ..t
            },
            Err(e) => TxView { step: PersistStep::RestoreStella, error: Some(e), ..t },
        },
        PersistStep::RestoreStella | PersistStep::RestoreStartup | PersistStep::RestorePolaris => {
            let errs = match outcome {
                Ok(()) => t.rollback_errors,
                Err(e) => t.rollback_errors.push(e),
            };
            TxView {
                step: if t.step == PersistStep::RestoreStella {
                    PersistStep::RestoreStartup
                } else if t.step == PersistStep::RestoreStartup {
                    PersistStep::RestorePolaris
                } else {
                    PersistStep::Finished
                },
                rollback_errors: errs,
                ..t
            }
        },
        PersistStep::Finished => t,
    }
}

/// The state before any work.
pub open spec fn tx_start(
    original_stella: StellaRecordSettingView,
    next_stella: StellaRecordSettingView,
    original_polaris: PolarisSettingView,
    next_polaris: PolarisSettingView,
) -> TxView {
    TxView {
        original_stella,
        next_stella,
        original_polaris,
        next_polaris,
        step: PersistStep::SavePolaris,
        error: None,
        rollback_errors: Seq::empty(),
    }
}

/// The view of an outcome.
pub open spec fn outcome_view(o: Result<(), String>) -> Result<(), Seq<char>> {
    match o {
        Ok(()) => Ok(()),
        Err(e) => Err(e@),
    }
}

/// Saving the settings dialog: three writes, undone in reverse order when
/// one of them fails.
pub struct SettingsTransaction {
    original_stella: StellaRecordSetting,
    next_stella: StellaRecordSetting,
    original_polaris: PolarisSetting,
    next_polaris: PolarisSetting,
    step: PersistStep,
    error: Option<String>,
    rollback_errors: Vec<String>,
}

impl SettingsTransaction {
    pub closed spec fn view(&self) -> TxView {
        TxView {
            original_stella: self.original_stella@,
            next_stella: self.next_stella@,
            original_polaris: self.original_polaris@,
            next_polaris: self.next_polaris@,
            step: self.step,
            error: match self.error {
                Some(e) => Some(e@),
                None => None,
            },
            rollback_errors: self.rollback_errors@.map_values(|e: String| e@),
        }
    }

    /// Starts saving `next_stella` and `next_polaris` over the originals;
    /// the first work is writing Polaris's settings.
    pub fn persist_management_settings(
        original_stella: &StellaRecordSetting,
        next_stella: &StellaRecordSetting,
        original_polaris: &PolarisSetting,
        next_polaris: &PolarisSetting,
    ) -> (r: (Self, SettingsAction))
        ensures
            r.0@ == tx_start(original_stella@, next_stella@, original_polaris@, next_polaris@),
            r.1@ == action_for(r.0@),
    {
        let t = SettingsTransaction {
            original_stella: original_stella.copy(),
            next_stella: next_stella.copy(),
            original_polaris: original_polaris.copy(),
            next_polaris: next_polaris.copy(),
            step: PersistStep::SavePolaris,
            error: None,
            rollback_errors: Vec::new(),
        };
        assert(t@.rollback_errors =~= Seq::<Seq<char>>::empty());
        let a = SettingsAction::SavePolaris(t.next_polaris.copy());
        (t, a)
    }

    /// The result of a finished save.
    fn result(&self) -> (r: Result<(), String>)
        requires
            self.step == PersistStep::Finished,
        ensures
            outcome_view(r) == persist_result(self@),
    {
        match &self.error {
            None => Ok(()),
            Some(e) => {
                if self.rollback_errors.len() == 0 {
                    Err(e.clone())
                } else {
                    let mut msg = e.clone();
                    msg.append("。設定の復元にも失敗しました: ");
                    let joined = join_with(&self.rollback_errors, " / ");
                    msg.append(joined.as_str());
                    Err(msg)
                }
            },
        }
    }

    /// The work of the current step.
    fn action(&self) -> (r: SettingsAction)
        ensures
            r@ == action_for(self@),
    {
        match self.step {
            PersistStep::SavePolaris => SettingsAction::SavePolaris(self.next_polaris.copy()),
            PersistStep::SetStartup => SettingsAction::SetStartup(self.next_stella.enable_startup),
            PersistStep::SaveStella => SettingsAction::SaveStella(self.next_stella.copy()),
            PersistStep::RestoreStella => SettingsAction::SaveStella(self.original_stella.copy()),
            PersistStep::RestoreStartup => SettingsAction::SetStartup(
                self.original_stella.enable_startup,
            ),
            PersistStep::RestorePolaris => SettingsAction::SavePolaris(
                self.original_polaris.copy(),
            ),
            PersistStep::Finished => SettingsAction::Finish(self.result()),
        }
    }

    /// Reports how the current step's work went and returns the next work.
    pub fn advance(&mut self, outcome: Result<(), String>) -> (r: SettingsAction)
        requires
            old(self)@.step != PersistStep::Finished,
        ensures
            final(self)@ == tx_next(old(self)@, outcome_view(outcome)),
            r@ == action_for(final(self)@),
    {
        let ghost o = outcome_view(outcome);
        let ghost errs0 = self@.rollback_errors;
        match self.step {
            PersistStep::SavePolaris | PersistStep::SetStartup | PersistStep::SaveStella => {
                match outcome {
                    Ok(()) => {
                        self.step = match self.step {
                            PersistStep::SavePolaris => PersistStep::SetStartup,
                            PersistStep::SetStartup => PersistStep::SaveStella,
                            _ => PersistStep::Finished,
                        };
                    },
                    Err(e) => {
                        self.error = Some(e);
                        self.step = PersistStep::RestoreStella;
                    },
                }
            },
            _ => {
                match outcome {
                    Ok(()) => {},
                    Err(e) => {
                        self.rollback_errors.push(e);
                    },
                }
                self.step = match self.step {
                    PersistStep::RestoreStella => PersistStep::RestoreStartup,
                    PersistStep::RestoreStartup => PersistStep::RestorePolaris,
                    _ => PersistStep::Finished,
                };
            },
        }
        proof {
            if o is Err && (old(self)@.step == PersistStep::RestoreStella || old(self)@.step
                == PersistStep::RestoreStartup || old(self)@.step == PersistStep::RestorePolaris) {
                assert(self@.rollback_errors =~= errs0.push(o->Err_0));
            }
        }
        self.action()
    }
}

/// Joins texts with a separator.
fn join_with(parts: &Vec<String>, sep: &str) -> (r: String)
    ensures
        r@ == join_texts(parts@.map_values(|e: String| e@), sep@),
{
    let ghost v = parts@.map_values(|e: String| e@);
    let mut out = String::new();
    let mut i: usize = 0;
    while i < parts.len()
        invariant
            i <= parts.len(),
            v == parts@.map_values(|e: String| e@),
            out@ == join_texts(v.take(i as int), sep@),
        decreases parts.len() - i,
    {
        assert(v.take(i + 1).drop_last() =~= v.take(i as int));
        assert(v.take(i + 1).last() == parts@[i as int]@);
        if i > 0 {
            out.append(sep);
        } else {
            assert(v.take(0) =~= Seq::<Seq<char>>::empty());
            assert(out@ =~= Seq::<char>::empty());
        }
        out.append(parts[i].as_str());
        if i == 0 {
            assert(out@ =~= v.take(1)[0]);
        }
        i = i + 1;
    }
    assert(v.take(parts.len() as int) =~= v);
    out
}

/// Starts saving the settings dialog: the threshold is checked first; then
/// StellaRecord's settings take the startup choice (marked as chosen) and
/// Polaris's settings take the threshold in bytes, everything else kept.
pub fn save_management_settings(
    original_stella: &StellaRecordSetting,
    original_polaris: &PolarisSetting,
    startup_enabled: bool,
    archive_limit_mb: u64,
) -> (r: Result<(SettingsTransaction, SettingsAction), String>)
    ensures
        !(1 <= archive_limit_mb <= MAX_ARCHIVE_LIMIT_MB) ==> (r matches Err(e) && e@
            == limit_range_error()),
        1 <= archive_limit_mb <= MAX_ARCHIVE_LIMIT_MB ==> (r matches Ok(p) && p.0@ == tx_start(
            original_stella@,
            StellaRecordSettingView {
                enable_startup: startup_enabled,
                startup_preference_set: true,
                ..original_stella@
            },
            original_polaris@,
            PolarisSettingView {
                capacity_threshold_bytes: (archive_limit_mb * ONE_MB_BYTES) as u64,
                ..original_polaris@
            },
        ) && p.1@ == action_for(p.0@)),
{
    let bytes = archive_limit_mb_to_bytes(archive_limit_mb)?;
    let mut next_stella = original_stella.copy();
    next_stella.enable_startup = startup_enabled;
    next_stella.startup_preference_set = true;
    let mut next_polaris = original_polaris.copy();
    next_polaris.capacity_threshold_bytes = bytes;
    Ok(
        SettingsTransaction::persist_management_settings(
            original_stella,
            &next_stella,
            original_polaris,
            &next_polaris,
        ),
    )
}

/// When any of the three writes fails, the three settings are restored to
/// their original values, StellaRecord's first and Polaris's last, whatever
/// those restoring writes give, and the save ends with the first failure's
/// error (with the restoring failures added).
pub proof fn law_failure_restores_originals(
    t: TxView,
    e: Seq<char>,
    o1: Result<(), Seq<char>>,
    o2: Result<(), Seq<char>>,
    o3: Result<(), Seq<char>>,
)
    requires
        t.step == PersistStep::SavePolaris || t.step == PersistStep::SetStartup || t.step
            == PersistStep::SaveStella,
        t.error is None,
        t.rollback_errors.len() == 0,
    ensures
        ({
            let t1 = tx_next(t, Err(e));
            let t2 = tx_next(t1, o1);
            let t3 = tx_next(t2, o2);
            let t4 = tx_next(t3, o3);
            let errs = seq![o1, o2, o3].filter(|o: Result<(), Seq<char>>| o is Err).map_values(
                |o: Result<(), Seq<char>>| o->Err_0,
            );
            &&& action_for(t1) == SettingsActionView::SaveStella(t.original_stella)
            &&& action_for(t2) == SettingsActionView::SetStartup(t.original_stella.enable_startup)
            &&& action_for(t3) == SettingsActionView::SavePolaris(t.original_polaris)
            &&& action_for(t4) == SettingsActionView::Finish(Err(persist_error(e, errs)))
        }),
{
    let p = |o: Result<(), Seq<char>>| o is Err;
    let f = |o: Result<(), Seq<char>>| o->Err_0;
    let t1 = tx_next(t, Err(e));
    let t2 = tx_next(t1, o1);
    let t3 = tx_next(t2, o2);
    let t4 = tx_next(t3, o3);
    let z = Seq::<Result<(), Seq<char>>>::empty();
    assert(z.filter(p) =~= z) by {
        reveal(Seq::filter);
    }
    assert(seq![o1] =~= z.push(o1));
    assert(seq![o1, o2] =~= seq![o1].push(o2));
    assert(seq![o1, o2, o3] =~= seq![o1, o2].push(o3));
    z.lemma_filter_push(o1, p);
    seq![o1].lemma_filter_push(o2, p);
    seq![o1, o2].lemma_filter_push(o3, p);
    let e1 = seq![o1].filter(p);
    let e2 = seq![o1, o2].filter(p);
    let e3 = seq![o1, o2, o3].filter(p);
    if o1 is Err {
        assert(e1 =~= seq![o1]);
    } else {
        assert(e1 =~= z);
    }
    assert(t2.rollback_errors =~= e1.map_values(f));
    if o2 is Err {
        assert(e2.map_values(f) =~= e1.map_values(f).push(f(o2)));
    } else {
        assert(e2 =~= e1);
    }
    assert(t3.rollback_errors =~= e2.map_values(f));
    if o3 is Err {
        assert(e3.map_values(f) =~= e2.map_values(f).push(f(o3)));
    } else {
        assert(e3 =~= e2);
    }
    assert(t4.rollback_errors =~= e3.map_values(f));
}

/// When all three writes succeed, the new values are written in order and
/// the save ends well.
pub proof fn law_success_writes_new_values(t: TxView)
    requires
        t.step == PersistStep::SavePolaris,
        t.error is None,
    ensures
        ({
            let t1 = tx_next(t, Ok(()));
            let t2 = tx_next(t1, Ok(()));
            let t3 = tx_next(t2, Ok(()));
            &&& action_for(t) == SettingsActionView::SavePolaris(t.next_polaris)
            &&& action_for(t1) == SettingsActionView::SetStartup(t.next_stella.enable_startup)
            &&& action_for(t2) == SettingsActionView::SaveStella(t.next_stella)
            &&& action_for(t3) == SettingsActionView::Finish(Ok(()))
        }),
{
}

} // verus!
