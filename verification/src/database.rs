//! What the read-only table browser knows of the main database: the tables
//! and views it shows, their labels and descriptions, and the validation that
//! stand between a request and the SQL text built from it.

use vstd::prelude::*;

use crate::models::{DbColumnMeta, DbTableSummary, TableData};
use crate::parser::views;
use crate::text::{concat2, decimal, i64_text, identifier_text, is_identifier_text, owned, signed_decimal, str_eq, u64_text};

verus! {

/// Display metadata of one previewable column.
#[derive(Clone, Copy)]
pub struct ColumnComment {
    pub name: &'static str,
    pub label: &'static str,
    pub description: &'static str,
}

/// [`ColumnComment`] with its texts as character sequences.
pub struct ColumnCommentView {
    pub name: Seq<char>,
    pub label: Seq<char>,
    pub description: Seq<char>,
}

impl ColumnComment {
    pub open spec fn view(&self) -> ColumnCommentView {
        ColumnCommentView { name: self.name@, label: self.label@, description: self.description@ }
    }
}

/// Display metadata of one previewable table or view.
pub struct TableComment {
    pub name: &'static str,
    pub label: &'static str,
    pub description: &'static str,
    pub storage: &'static str,
    pub columns: Vec<ColumnComment>,
    pub default_sort: Option<(&'static str, &'static str)>,
    pub is_view: bool,
}

/// [`TableComment`] with its texts as character sequences.
pub struct TableCommentView {
    pub name: Seq<char>,
    pub label: Seq<char>,
    pub description: Seq<char>,
    pub storage: Seq<char>,
    pub columns: Seq<ColumnCommentView>,
    pub default_sort: Option<(Seq<char>, Seq<char>)>,
    pub is_view: bool,
}

/// The views of a list of columns.
pub open spec fn column_views(cols: Seq<ColumnComment>) -> Seq<ColumnCommentView> {
    cols.map_values(|c: ColumnComment| c@)
}

/// The view of an optional pair of texts.
pub open spec fn sort_view(s: Option<(&'static str, &'static str)>) -> Option<(Seq<char>, Seq<char>)> {
    match s {
        Some((c, d)) => Some((c@, d@)),
        None => None,
    }
}

impl TableComment {
    pub open spec fn view(&self) -> TableCommentView {
        TableCommentView {
            name: self.name@,
            label: self.label@,
            description: self.description@,
            storage: self.storage@,
            columns: column_views(self.columns@),
            default_sort: sort_view(self.default_sort),
            is_view: self.is_view,
        }
    }
}

/// The views of a list of tables.
pub open spec fn table_views(tables: Seq<TableComment>) -> Seq<TableCommentView> {
    tables.map_values(|t: TableComment| t@)
}

/// A column entry of the registry.
pub open spec fn column_view(name: Seq<char>, label: Seq<char>, description: Seq<char>) -> ColumnCommentView {
    ColumnCommentView { name, label, description }
}

/// A table entry of the registry.
pub open spec fn table_view(
    name: Seq<char>,
    label: Seq<char>,
    description: Seq<char>,
    storage: Seq<char>,
    columns: Seq<ColumnCommentView>,
    default_sort: Option<(Seq<char>, Seq<char>)>,
    is_view: bool,
) -> TableCommentView {
    TableCommentView { name, label, description, storage, columns, default_sort, is_view }
}

fn column(name: &'static str, label: &'static str, description: &'static str) -> (r: ColumnComment)
    ensures
        r@ == column_view(name@, label@, description@),
{
    ColumnComment { name, label, description }
}

fn table(
    name: &'static str,
    label: &'static str,
    description: &'static str,
    storage: &'static str,
    columns: Vec<ColumnComment>,
    default_sort: Option<(&'static str, &'static str)>,
    is_view: bool,
) -> (r: TableComment)
    ensures
        r@ == table_view(
            name@,
            label@,
            description@,
            storage@,
            column_views(columns@),
            sort_view(default_sort),
            is_view,
        ),
{
    TableComment { name, label, description, storage, columns, default_sort, is_view }
}

/// The columns of `sessions` as shown in the preview.
pub open spec fn sessions_columns() -> Seq<ColumnCommentView> {
    seq![
        column_view("id"@, "ID"@, "解析セッションの内部ID"@),
        column_view("log_name"@, "元ログ名"@, "解析元になった VRChat ログのファイル名"@),
        column_view("account_id"@, "アカウントID"@, "ログに記録された自分の VRChat ユーザーID"@),
        column_view("account_name"@, "アカウント名"@, "ログ時点での自分の表示名"@),
        column_view("start_time"@, "開始時刻"@, "このログセッションの開始時刻"@),
        column_view("end_time"@, "終了時刻"@, "このログセッションの終了時刻"@),
    ]
}

/// The columns of `visits` as shown in the preview.
pub open spec fn visits_columns() -> Seq<ColumnCommentView> {
    seq![
        column_view("id"@, "ID"@, "ワールド訪問レコードの内部ID"@),
        column_view("session_id"@, "セッション"@, "親の解析セッション"@),
        column_view("world_name"@, "ワールド名"@, "訪問先ワールドの表示名"@),
        column_view("instance_id"@, "インスタンスID"@, "訪問先インスタンスの識別子"@),
        column_view("instance_type"@, "インスタンスタイプ"@, "公開区分"@),
        column_view("region"@, "リージョン"@, "ワールドサーバーのリージョン情報"@),
        column_view("join_time"@, "Join時刻"@, "ワールドへ入った時刻"@),
        column_view("leave_time"@, "Leave時刻"@, "ワールドを離れた時刻"@),
    ]
}

/// The columns of `find_users` as shown in the preview.
pub open spec fn find_users_columns() -> Seq<ColumnCommentView> {
    seq![
        column_view("vrchat_id"@, "ユーザーID"@, "VRChat の usr_xxx 識別子"@),
        column_view("account_name"@, "ユーザー名"@, "観測時点のプレイヤー表示名"@),
    ]
}

/// The columns of `with_users` as shown in the preview.
pub open spec fn with_users_columns() -> Seq<ColumnCommentView> {
    seq![
        column_view("id"@, "ID"@, "同席レコードの内部ID"@),
        column_view("visit_id"@, "Join"@, "どのワールド訪問中の記録か"@),
        column_view("vrchat_id"@, "ユーザーID"@, "プレイヤーの VRChat ID"@),
        column_view("is_self"@, "is_self"@, "自分自身の入室記録かどうか"@),
        column_view("join_time"@, "Join時刻"@, "そのプレイヤーを観測した開始時刻"@),
        column_view("leave_time"@, "Leave時刻"@, "そのプレイヤーを観測しなくなった時刻"@),
    ]
}

/// The columns of `with_users_detail` as shown in the preview.
pub open spec fn with_users_detail_columns() -> Seq<ColumnCommentView> {
    seq![
        column_view("id"@, "ID"@, "同席レコードの内部ID"@),
        column_view("visit_id"@, "Join"@, "どのワールド訪問中の記録か"@),
        column_view("world_name"@, "ワールド名"@, "同席していたワールド"@),
        column_view("vrchat_id"@, "ユーザーID"@, "プレイヤーの VRChat ID"@),
        column_view("user_name"@, "ユーザー名"@, "プレイヤーの表示名"@),
        column_view("is_self"@, "is_self"@, "自分自身の入室記録かどうか"@),
        column_view("join_time"@, "Join時刻"@, "そのプレイヤーを観測した開始時刻"@),
        column_view("leave_time"@, "Leave時刻"@, "そのプレイヤーを観測しなくなった時刻"@),
    ]
}

/// The columns of `visit_summary` as shown in the preview.
pub open spec fn visit_summary_columns() -> Seq<ColumnCommentView> {
    seq![
        column_view("visit_id"@, "ID"@, "ワールド訪問の内部ID"@),
        column_view("world_name"@, "ワールド名"@, "訪問先ワールドの表示名"@),
        column_view("instance_id"@, "インスタンスID"@, "インスタンスの識別子"@),
        column_view("instance_type"@, "インスタンスタイプ"@, "公開区分"@),
        column_view("region"@, "リージョン"@, "サーバーリージョン"@),
        column_view("join_time"@, "Join時刻"@, "入室時刻"@),
        column_view("leave_time"@, "Leave時刻"@, "退室時刻"@),
        column_view("duration_sec"@, "滞在秒数"@, "滞在時間（秒）"@),
        column_view("other_player_count"@, "他プレイヤー数"@, "同室していた他プレイヤーの数"@),
    ]
}

/// The columns of `notifications` as shown in the preview.
pub open spec fn notifications_columns() -> Seq<ColumnCommentView> {
    seq![
        column_view("id"@, "ID"@, "通知履歴の内部ID"@),
        column_view("notif_type"@, "通知種別"@, "通知タイプ"@),
        column_view("message"@, "本文"@, "通知メッセージ本文"@),
        column_view("sender_name"@, "送信者名"@, "通知送信者の表示名"@),
        column_view("sender_user_id"@, "送信者ID"@, "通知送信者のユーザーID"@),
        column_view("notif_id"@, "VRC通知ID"@, "VRChat 側の通知識別子"@),
        column_view("session_id"@, "セッション"@, "通知を受けた解析セッション"@),
        column_view("created_at"@, "作成時刻"@, "通知側での作成時刻"@),
        column_view("received_at"@, "受信時刻"@, "STELLA RECORD が受け取った時刻"@),
        column_view("target_world_name"@, "遷移先ワールド名"@, "通知から推定した遷移先ワールド名"@),
        column_view("target_instance_id"@, "遷移先インスタンスID"@, "通知から推定したインスタンス識別子"@),
        column_view("target_instance_type"@, "遷移先インスタンスタイプ"@, "通知から推定した公開区分"@),
        column_view("target_owner"@, "遷移先オーナー"@, "通知から推定したインスタンス所有者"@),
        column_view("target_region"@, "遷移先リージョン"@, "通知から推定したリージョン情報"@),
    ]
}

/// The columns of `screenshots` as shown in the preview.
pub open spec fn screenshots_columns() -> Seq<ColumnCommentView> {
    seq![
        column_view("id"@, "ID"@, "撮影イベントの内部ID"@),
        column_view("visit_id"@, "Join"@, "撮影時に滞在していたワールド訪問"@),
        column_view("file_path"@, "ファイルパス"@, "スクリーンショットの保存先フルパス"@),
        column_view("resolution_width"@, "幅"@, "撮影解像度の幅 (px)"@),
        column_view("resolution_height"@, "高さ"@, "撮影解像度の高さ (px)"@),
        column_view("timestamp"@, "撮影時刻"@, "スクリーンショットを撮影した時刻"@),
    ]
}

/// The columns of `screenshots_detail` as shown in the preview.
pub open spec fn screenshots_detail_columns() -> Seq<ColumnCommentView> {
    seq![
        column_view("id"@, "ID"@, "撮影イベントの内部ID"@),
        column_view("visit_id"@, "Join"@, "撮影時に滞在していたワールド訪問"@),
        column_view("world_name"@, "ワールド名"@, "撮影時に滞在していたワールド"@),
        column_view("file_path"@, "ファイルパス"@, "スクリーンショットの保存先フルパス"@),
        column_view("resolution_width"@, "幅"@, "撮影解像度の幅 (px)"@),
        column_view("resolution_height"@, "高さ"@, "撮影解像度の高さ (px)"@),
        column_view("timestamp"@, "撮影時刻"@, "スクリーンショットを撮影した時刻"@),
    ]
}

/// The columns of `osc` as shown in the preview.
pub open spec fn osc_columns() -> Seq<ColumnCommentView> {
    seq![
        column_view("id"@, "ID"@, "OSCサービスイベントの内部ID"@),
        column_view("session_id"@, "セッション"@, "イベントが発生した解析セッション"@),
        column_view("event_type"@, "イベント種別"@, "found (外部ツール検出)"@),
        column_view("service_name"@, "サービス名"@, "OSCサービスの識別名 (例: OyasumiVR)"@),
        column_view("service_type"@, "サービス種別"@, "OSC / OSCQuery の区別"@),
        column_view("ip_address"@, "IPアドレス"@, "検出時の接続先IPアドレス"@),
        column_view("port"@, "ポート番号"@, "OSCサービスのポート番号"@),
        column_view("timestamp"@, "検出時刻"@, "OSCサービスを検出または告知した時刻"@),
    ]
}

/// The columns of `subscription` as shown in the preview.
pub open spec fn subscription_columns() -> Seq<ColumnCommentView> {
    seq![
        column_view("id"@, "ID"@, "サブスクリプション状態の内部ID"@),
        column_view("session_id"@, "セッション"@, "確認が発生した解析セッション"@),
        column_view("is_active"@, "有効フラグ"@, "VRChat+ が有効かどうか"@),
        column_view("subscription_id"@, "VRC契約ID"@, "VRChat 側のサブスクリプション識別子 (NULL=無効)"@),
        column_view("description"@, "説明"@, "サブスクリプション種別の説明テキスト"@),
        column_view("checked_at"@, "確認時刻"@, "サブスクリプション状態を確認した時刻"@),
    ]
}

/// The columns of `apps` as shown in the preview.
pub open spec fn apps_columns() -> Seq<ColumnCommentView> {
    seq![
        column_view("name"@, "アプリ名"@, "連携アプリの表示名"@),
        column_view("description"@, "説明"@, "連携アプリの説明文"@),
        column_view("path"@, "パス"@, "実行ファイルのパス"@),
        column_view("icon"@, "アイコン"@, "アイコン画像データ (BLOB)"@),
    ]
}

/// Every table and view the preview knows, in display order.
pub open spec fn table_registry() -> Seq<TableCommentView> {
    seq![
        table_view(
            "sessions"@,
            "セッション"@,
            "ログファイルに記録されたログイン～ログアウトのセッション情報テーブル"@,
            "Main DB"@,
            sessions_columns(),
            Some(("start_time"@, "DESC"@)),
            false,
        ),
        table_view(
            "visits"@,
            "Join履歴"@,
            "Joinしたインスタンスに紐づくデータテーブル"@,
            "Main DB"@,
            visits_columns(),
            Some(("join_time"@, "DESC"@)),
            false,
        ),
        table_view(
            "with_users"@,
            "遭遇ユーザー"@,
            "インスタンスごとに出会ったユーザー記録テーブル"@,
            "Main DB"@,
            with_users_columns(),
            Some(("join_time"@, "DESC"@)),
            false,
        ),
        table_view(
            "find_users"@,
            "ユーザー一覧"@,
            "ログから検出したユーザーの一覧テーブル"@,
            "Main DB"@,
            find_users_columns(),
            None,
            false,
        ),
        table_view(
            "notifications"@,
            "通知"@,
            "インバイトやboop、グループ通知などの履歴テーブル"@,
            "Main DB"@,
            notifications_columns(),
            Some(("received_at"@, "DESC"@)),
            false,
        ),
        table_view(
            "screenshots"@,
            "写真"@,
            "撮影した写真に紐づく関連情報テーブル"@,
            "Main DB"@,
            screenshots_columns(),
            Some(("timestamp"@, "DESC"@)),
            false,
        ),
        table_view(
            "osc"@,
            "OSC"@,
            "OSCアプリケーションの関連情報テーブル"@,
            "Main DB"@,
            osc_columns(),
            Some(("timestamp"@, "DESC"@)),
            false,
        ),
        table_view(
            "subscription"@,
            "VRChat+加入状態"@,
            "セッションごとのVRChat+加入状態の記録テーブル"@,
            "Main DB"@,
            subscription_columns(),
            Some(("checked_at"@, "DESC"@)),
            false,
        ),
        table_view(
            "apps"@,
            "連携アプリ"@,
            "ランチャーに登録されたアプリ情報テーブル"@,
            "Main DB"@,
            apps_columns(),
            None,
            false,
        ),
        table_view(
            "visit_summary"@,
            "Join履歴詳細"@,
            "Join履歴テーブル+ワールド名・滞在時間補完ビュー"@,
            "Main DB"@,
            visit_summary_columns(),
            Some(("join_time"@, "DESC"@)),
            true,
        ),
        table_view(
            "with_users_detail"@,
            "遭遇ユーザー詳細"@,
            "遭遇ユーザーテーブル+ワールド名・ユーザー名補完ビュー"@,
            "Main DB"@,
            with_users_detail_columns(),
            Some(("join_time"@, "DESC"@)),
            true,
        ),
        table_view(
            "screenshots_detail"@,
            "写真詳細"@,
            "写真テーブル+ワールド名補完ビュー"@,
            "Main DB"@,
            screenshots_detail_columns(),
            Some(("timestamp"@, "DESC"@)),
            true,
        ),
    ]
}

fn sessions_columns_list() -> (r: Vec<ColumnComment>)
    ensures
        column_views(r@) == sessions_columns(),
{
    let r = vec![
        column("id", "ID", "解析セッションの内部ID"),
        column("log_name", "元ログ名", "解析元になった VRChat ログのファイル名"),
        column("account_id", "アカウントID", "ログに記録された自分の VRChat ユーザーID"),
        column("account_name", "アカウント名", "ログ時点での自分の表示名"),
        column("start_time", "開始時刻", "このログセッションの開始時刻"),
        column("end_time", "終了時刻", "このログセッションの終了時刻"),
    ];
    assert(column_views(r@) =~= sessions_columns());
    r
}

fn visits_columns_list() -> (r: Vec<ColumnComment>)
    ensures
        column_views(r@) == visits_columns(),
{
    let r = vec![
        column("id", "ID", "ワールド訪問レコードの内部ID"),
        column("session_id", "セッション", "親の解析セッション"),
        column("world_name", "ワールド名", "訪問先ワールドの表示名"),
        column("instance_id", "インスタンスID", "訪問先インスタンスの識別子"),
        column("instance_type", "インスタンスタイプ", "公開区分"),
        column("region", "リージョン", "ワールドサーバーのリージョン情報"),
        column("join_time", "Join時刻", "ワールドへ入った時刻"),
        column("leave_time", "Leave時刻", "ワールドを離れた時刻"),
    ];
    assert(column_views(r@) =~= visits_columns());
    r
}

fn find_users_columns_list() -> (r: Vec<ColumnComment>)
    ensures
        column_views(r@) == find_users_columns(),
{
    let r = vec![
        column("vrchat_id", "ユーザーID", "VRChat の usr_xxx 識別子"),
        column("account_name", "ユーザー名", "観測時点のプレイヤー表示名"),
    ];
    assert(column_views(r@) =~= find_users_columns());
    r
}

fn with_users_columns_list() -> (r: Vec<ColumnComment>)
    ensures
        column_views(r@) == with_users_columns(),
{
    let r = vec![
        column("id", "ID", "同席レコードの内部ID"),
        column("visit_id", "Join", "どのワールド訪問中の記録か"),
        column("vrchat_id", "ユーザーID", "プレイヤーの VRChat ID"),
        column("is_self", "is_self", "自分自身の入室記録かどうか"),
        column("join_time", "Join時刻", "そのプレイヤーを観測した開始時刻"),
        column("leave_time", "Leave時刻", "そのプレイヤーを観測しなくなった時刻"),
    ];
    assert(column_views(r@) =~= with_users_columns());
    r
}

fn with_users_detail_columns_list() -> (r: Vec<ColumnComment>)
    ensures
        column_views(r@) == with_users_detail_columns(),
{
    let r = vec![
        column("id", "ID", "同席レコードの内部ID"),
        column("visit_id", "Join", "どのワールド訪問中の記録か"),
        column("world_name", "ワールド名", "同席していたワールド"),
        column("vrchat_id", "ユーザーID", "プレイヤーの VRChat ID"),
        column("user_name", "ユーザー名", "プレイヤーの表示名"),
        column("is_self", "is_self", "自分自身の入室記録かどうか"),
        column("join_time", "Join時刻", "そのプレイヤーを観測した開始時刻"),
        column("leave_time", "Leave時刻", "そのプレイヤーを観測しなくなった時刻"),
    ];
    assert(column_views(r@) =~= with_users_detail_columns());
    r
}

fn visit_summary_columns_list() -> (r: Vec<ColumnComment>)
    ensures
        column_views(r@) == visit_summary_columns(),
{
    let r = vec![
        column("visit_id", "ID", "ワールド訪問の内部ID"),
        column("world_name", "ワールド名", "訪問先ワールドの表示名"),
        column("instance_id", "インスタンスID", "インスタンスの識別子"),
        column("instance_type", "インスタンスタイプ", "公開区分"),
        column("region", "リージョン", "サーバーリージョン"),
        column("join_time", "Join時刻", "入室時刻"),
        column("leave_time", "Leave時刻", "退室時刻"),
        column("duration_sec", "滞在秒数", "滞在時間（秒）"),
        column("other_player_count", "他プレイヤー数", "同室していた他プレイヤーの数"),
    ];
    assert(column_views(r@) =~= visit_summary_columns());
    r
}

fn notifications_columns_list() -> (r: Vec<ColumnComment>)
    ensures
        column_views(r@) == notifications_columns(),
{
    let r = vec![
        column("id", "ID", "通知履歴の内部ID"),
        column("notif_type", "通知種別", "通知タイプ"),
        column("message", "本文", "通知メッセージ本文"),
        column("sender_name", "送信者名", "通知送信者の表示名"),
        column("sender_user_id", "送信者ID", "通知送信者のユーザーID"),
        column("notif_id", "VRC通知ID", "VRChat 側の通知識別子"),
        column("session_id", "セッション", "通知を受けた解析セッション"),
        column("created_at", "作成時刻", "通知側での作成時刻"),
        column("received_at", "受信時刻", "STELLA RECORD が受け取った時刻"),
        column("target_world_name", "遷移先ワールド名", "通知から推定した遷移先ワールド名"),
        column("target_instance_id", "遷移先インスタンスID", "通知から推定したインスタンス識別子"),
        column("target_instance_type", "遷移先インスタンスタイプ", "通知から推定した公開区分"),
        column("target_owner", "遷移先オーナー", "通知から推定したインスタンス所有者"),
        column("target_region", "遷移先リージョン", "通知から推定したリージョン情報"),
    ];
    assert(column_views(r@) =~= notifications_columns());
    r
}

fn screenshots_columns_list() -> (r: Vec<ColumnComment>)
    ensures
        column_views(r@) == screenshots_columns(),
{
    let r = vec![
        column("id", "ID", "撮影イベントの内部ID"),
        column("visit_id", "Join", "撮影時に滞在していたワールド訪問"),
        column("file_path", "ファイルパス", "スクリーンショットの保存先フルパス"),
        column("resolution_width", "幅", "撮影解像度の幅 (px)"),
        column("resolution_height", "高さ", "撮影解像度の高さ (px)"),
        column("timestamp", "撮影時刻", "スクリーンショットを撮影した時刻"),
    ];
    assert(column_views(r@) =~= screenshots_columns());
    r
}

fn screenshots_detail_columns_list() -> (r: Vec<ColumnComment>)
    ensures
        column_views(r@) == screenshots_detail_columns(),
{
    let r = vec![
        column("id", "ID", "撮影イベントの内部ID"),
        column("visit_id", "Join", "撮影時に滞在していたワールド訪問"),
        column("world_name", "ワールド名", "撮影時に滞在していたワールド"),
        column("file_path", "ファイルパス", "スクリーンショットの保存先フルパス"),
        column("resolution_width", "幅", "撮影解像度の幅 (px)"),
        column("resolution_height", "高さ", "撮影解像度の高さ (px)"),
        column("timestamp", "撮影時刻", "スクリーンショットを撮影した時刻"),
    ];
    assert(column_views(r@) =~= screenshots_detail_columns());
    r
}

fn osc_columns_list() -> (r: Vec<ColumnComment>)
    ensures
        column_views(r@) == osc_columns(),
{
    let r = vec![
        column("id", "ID", "OSCサービスイベントの内部ID"),
        column("session_id", "セッション", "イベントが発生した解析セッション"),
        column("event_type", "イベント種別", "found (外部ツール検出)"),
        column("service_name", "サービス名", "OSCサービスの識別名 (例: OyasumiVR)"),
        column("service_type", "サービス種別", "OSC / OSCQuery の区別"),
        column("ip_address", "IPアドレス", "検出時の接続先IPアドレス"),
        column("port", "ポート番号", "OSCサービスのポート番号"),
        column("timestamp", "検出時刻", "OSCサービスを検出または告知した時刻"),
    ];
    assert(column_views(r@) =~= osc_columns());
    r
}

fn subscription_columns_list() -> (r: Vec<ColumnComment>)
    ensures
        column_views(r@) == subscription_columns(),
{
    let r = vec![
        column("id", "ID", "サブスクリプション状態の内部ID"),
        column("session_id", "セッション", "確認が発生した解析セッション"),
        column("is_active", "有効フラグ", "VRChat+ が有効かどうか"),
        column("subscription_id", "VRC契約ID", "VRChat 側のサブスクリプション識別子 (NULL=無効)"),
        column("description", "説明", "サブスクリプション種別の説明テキスト"),
        column("checked_at", "確認時刻", "サブスクリプション状態を確認した時刻"),
    ];
    assert(column_views(r@) =~= subscription_columns());
    r
}

fn apps_columns_list() -> (r: Vec<ColumnComment>)
    ensures
        column_views(r@) == apps_columns(),
{
    let r = vec![
        column("name", "アプリ名", "連携アプリの表示名"),
        column("description", "説明", "連携アプリの説明文"),
        column("path", "パス", "実行ファイルのパス"),
        column("icon", "アイコン", "アイコン画像データ (BLOB)"),
    ];
    assert(column_views(r@) =~= apps_columns());
    r
}

/// Builds the registry of previewable tables and views.
pub fn table_comments() -> (r: Vec<TableComment>)
    ensures
        table_views(r@) == table_registry(),
{
    let r = vec![
        table(
            "sessions",
            "セッション",
            "ログファイルに記録されたログイン～ログアウトのセッション情報テーブル",
            "Main DB",
            sessions_columns_list(),
            Some(("start_time", "DESC")),
            false,
        ),
        table(
            "visits",
            "Join履歴",
            "Joinしたインスタンスに紐づくデータテーブル",
            "Main DB",
            visits_columns_list(),
            Some(("join_time", "DESC")),
            false,
        ),
        table(
            "with_users",
            "遭遇ユーザー",
            "インスタンスごとに出会ったユーザー記録テーブル",
            "Main DB",
            with_users_columns_list(),
            Some(("join_time", "DESC")),
            false,
        ),
        table(
            "find_users",
            "ユーザー一覧",
            "ログから検出したユーザーの一覧テーブル",
            "Main DB",
            find_users_columns_list(),
            None,
            false,
        ),
        table(
            "notifications",
            "通知",
            "インバイトやboop、グループ通知などの履歴テーブル",
            "Main DB",
            notifications_columns_list(),
            Some(("received_at", "DESC")),
            false,
        ),
        table(
            "screenshots",
            "写真",
            "撮影した写真に紐づく関連情報テーブル",
            "Main DB",
            screenshots_columns_list(),
            Some(("timestamp", "DESC")),
            false,
        ),
        table(
            "osc",
            "OSC",
            "OSCアプリケーションの関連情報テーブル",
            "Main DB",
            osc_columns_list(),
            Some(("timestamp", "DESC")),
            false,
        ),
        table(
            "subscription",
            "VRChat+加入状態",
            "セッションごとのVRChat+加入状態の記録テーブル",
            "Main DB",
            subscription_columns_list(),
            Some(("checked_at", "DESC")),
            false,
        ),
        table(
            "apps",
            "連携アプリ",
            "ランチャーに登録されたアプリ情報テーブル",
            "Main DB",
            apps_columns_list(),
            None,
            false,
        ),
        table(
            "visit_summary",
            "Join履歴詳細",
            "Join履歴テーブル+ワールド名・滞在時間補完ビュー",
            "Main DB",
            visit_summary_columns_list(),
            Some(("join_time", "DESC")),
            true,
        ),
        table(
            "with_users_detail",
            "遭遇ユーザー詳細",
            "遭遇ユーザーテーブル+ワールド名・ユーザー名補完ビュー",
            "Main DB",
            with_users_detail_columns_list(),
            Some(("join_time", "DESC")),
            true,
        ),
        table(
            "screenshots_detail",
            "写真詳細",
            "写真テーブル+ワールド名補完ビュー",
            "Main DB",
            screenshots_detail_columns_list(),
            Some(("timestamp", "DESC")),
            true,
        ),
    ];
    assert(table_views(r@) =~= table_registry());
    r
}
/// The first index at or after `i` of a table named `name`.
pub open spec fn table_index_from(reg: Seq<TableCommentView>, name: Seq<char>, i: int) -> Option<
    int,
>
    decreases reg.len() - i,
{
    if i < 0 || i >= reg.len() {
        None
    } else if reg[i].name == name {
        Some(i)
    } else {
        table_index_from(reg, name, i + 1)
    }
}

/// The registered metadata of the table or view `name`.
pub open spec fn table_comment_of(name: Seq<char>) -> Option<TableCommentView> {
    match table_index_from(table_registry(), name, 0) {
        Some(i) => Some(table_registry()[i]),
        None => None,
    }
}

/// The first index at or after `i` of a column named `name`.
pub open spec fn column_index_from(cols: Seq<ColumnCommentView>, name: Seq<char>, i: int) -> Option<
    int,
>
    decreases cols.len() - i,
{
    if i < 0 || i >= cols.len() {
        None
    } else if cols[i].name == name {
        Some(i)
    } else {
        column_index_from(cols, name, i + 1)
    }
}

/// The registered metadata of column `column` of table `table`.
pub open spec fn column_comment_of(table: Seq<char>, column: Seq<char>) -> Option<ColumnCommentView> {
    match table_comment_of(table) {
        Some(t) => match column_index_from(t.columns, column, 0) {
            Some(i) => Some(t.columns[i]),
            None => None,
        },
        None => None,
    }
}

/// Looks up the registered metadata of a table or view.
pub fn get_table_comment(table_name: &str) -> (r: Option<TableComment>)
    ensures
        match r {
            Some(t) => table_comment_of(table_name@) == Some(t@),
            None => table_comment_of(table_name@) is None,
        },
{
    let mut reg = table_comments();
    let ghost spec_reg = table_registry();
    let mut i: usize = 0;
    while i < reg.len()
        invariant
            table_views(reg@) == spec_reg,
            spec_reg == table_registry(),
            i <= reg.len(),
            table_index_from(spec_reg, table_name@, 0) == table_index_from(
                spec_reg,
                table_name@,
                i as int,
            ),
        decreases reg.len() - i,
    {
        assert(spec_reg[i as int] == reg@[i as int]@);
        if str_eq(reg[i].name, table_name) {
            let t = reg.remove(i);
            return Some(t);
        }
        i = i + 1;
    }
    None
}

/// Looks up the registered metadata of a column of a table.
pub fn get_column_comment(table_name: &str, column_name: &str) -> (r: Option<ColumnComment>)
    ensures
        match r {
            Some(c) => column_comment_of(table_name@, column_name@) == Some(c@),
            None => column_comment_of(table_name@, column_name@) is None,
        },
{
    let t = match get_table_comment(table_name) {
        Some(t) => t,
        None => return None,
    };
    let ghost cols = t@.columns;
    let mut i: usize = 0;
    while i < t.columns.len()
        invariant
            cols == column_views(t.columns@),
            table_comment_of(table_name@) == Some(t@),
            i <= t.columns.len(),
            column_index_from(cols, column_name@, 0) == column_index_from(
                cols,
                column_name@,
                i as int,
            ),
        decreases t.columns.len() - i,
    {
        assert(cols[i as int] == t.columns@[i as int]@);
        if str_eq(t.columns[i].name, column_name) {
            return Some(t.columns[i]);
        }
        i = i + 1;
    }
    None
}

/// Accepts a table name made of ASCII letters, digits and `_` only, and at
/// least one of them: such a name can stand in SQL text.
pub fn sanitize_table_name<'a>(table_name: &'a str) -> (r: Result<&'a str, String>)
    ensures
        is_identifier_text(table_name@) ==> r == Ok::<&'a str, String>(table_name),
        !is_identifier_text(table_name@) ==> (r matches Err(e) && e@ == "テーブル名が不正です"@),
{
    if identifier_text(table_name) {
        Ok(table_name)
    } else {
        Err(owned("テーブル名が不正です"))
    }
}

/// What checking a sort column gives: its registered name, or the error.
pub open spec fn sort_column_of(table: Seq<char>, column: Seq<char>) -> Result<Seq<char>, Seq<char>> {
    if !is_identifier_text(column) {
        Err("ソートカラム名が不正です"@)
    } else {
        match column_comment_of(table, column) {
            Some(c) => Ok(c.name),
            None => Err("ソートカラムが見つかりません: "@ + column),
        }
    }
}

/// Accepts a sort column only if it is a plain identifier and a registered
/// column of the table.
pub fn sanitize_sort_column(table_name: &str, column_name: &str) -> (r: Result<&'static str, String>)
    ensures
        match r {
            Ok(s) => sort_column_of(table_name@, column_name@) == Ok::<Seq<char>, Seq<char>>(s@),
            Err(e) => sort_column_of(table_name@, column_name@) == Err::<Seq<char>, Seq<char>>(e@),
        },
{
    if !identifier_text(column_name) {
        return Err(owned("ソートカラム名が不正です"));
    }
    match get_column_comment(table_name, column_name) {
        Some(c) => Ok(c.name),
        None => Err(concat2("ソートカラムが見つかりません: ", column_name)),
    }
}

/// The sort direction a request asks for: ascending only for `asc`.
pub open spec fn direction_of(sort_dir: Option<Seq<char>>) -> Seq<char> {
    if sort_dir == Some("asc"@) {
        "ASC"@
    } else {
        "DESC"@
    }
}

/// The `ORDER BY` clause of a preview query: the requested column, else the
/// table's default order, else none.
pub open spec fn order_clause_of(
    table: Seq<char>,
    sort_column: Option<Seq<char>>,
    sort_dir: Option<Seq<char>>,
) -> Result<Seq<char>, Seq<char>> {
    match sort_column {
        Some(column) => match sort_column_of(table, column) {
            Ok(c) => Ok("ORDER BY "@ + c + " "@ + direction_of(sort_dir)),
            Err(e) => Err(e),
        },
        None => match table_comment_of(table) {
            Some(t) => match t.default_sort {
                Some((c, d)) => Ok("ORDER BY "@ + c + " "@ + d),
                None => Ok(Seq::empty()),
            },
            None => Ok(Seq::empty()),
        },
    }
}

/// The view of an optional string.
pub open spec fn opt_text(s: Option<String>) -> Option<Seq<char>> {
    match s {
        Some(t) => Some(t@),
        None => None,
    }
}

/// The view of a result whose two sides are strings.
pub open spec fn text_result(r: Result<String, String>) -> Result<Seq<char>, Seq<char>> {
    match r {
        Ok(s) => Ok(s@),
        Err(e) => Err(e@),
    }
}

/// Builds the `ORDER BY` clause of a preview query.
pub fn order_clause(table_name: &str, sort_column: &Option<String>, sort_dir: &Option<String>) -> (r:
    Result<String, String>)
    ensures
        text_result(r) == order_clause_of(table_name@, opt_text(*sort_column), opt_text(*sort_dir)),
{
    match sort_column {
        Some(col) => {
            let c = sanitize_sort_column(table_name, col.as_str())?;
            let asc = match sort_dir {
                Some(d) => str_eq(d.as_str(), "asc"),
                None => false,
            };
            let dir = if asc {
                "ASC"
            } else {
                "DESC"
            };
            let mut s = concat2("ORDER BY ", c);
            s.append(" ");
            s.append(dir);
            Ok(s)
        },
        None => match get_table_comment(table_name) {
            Some(t) => match t.default_sort {
                Some((c, d)) => {
                    let mut s = concat2("ORDER BY ", c);
                    s.append(" ");
                    s.append(d);
                    Ok(s)
                },
                None => Ok(String::new()),
            },
            None => Ok(String::new()),
        },
    }
}

/// Rows per preview page.
pub const PAGE_SIZE: u32 = 500;

/// The row offset of a preview page: the page number times the page size,
/// held at `u32::MAX` when it would not fit.
pub fn page_offset(page: Option<u32>) -> (r: u32)
    ensures
        r == (if page.unwrap_or(0) * PAGE_SIZE > u32::MAX {
            u32::MAX as int
        } else {
            page.unwrap_or(0) * PAGE_SIZE
        }),
{
    let p = match page {
        Some(p) => p,
        None => 0,
    };
    if p > u32::MAX / PAGE_SIZE {
        u32::MAX
    } else {
        p * PAGE_SIZE
    }
}

/// The query that counts the rows of a table.
pub fn count_sql(table_name: &str) -> (r: String)
    ensures
        r@ == "SELECT COUNT(*) FROM "@ + table_name@,
{
    concat2("SELECT COUNT(*) FROM ", table_name)
}

/// The query text of one preview page.
pub open spec fn page_sql_of(table: Seq<char>, order: Seq<char>, offset: u32) -> Seq<char> {
    "SELECT * FROM "@ + table + " "@ + order + " LIMIT 500 OFFSET "@ + decimal(offset as nat)
}

/// Builds the query of one preview page of a table: its sort, validated as
/// [`order_clause`] does, and the page's offset.
pub fn table_page_query(
    table_name: &str,
    page: Option<u32>,
    sort_column: &Option<String>,
    sort_dir: &Option<String>,
) -> (r: Result<String, String>)
    ensures
        match order_clause_of(table_name@, opt_text(*sort_column), opt_text(*sort_dir)) {
            Ok(o) => r matches Ok(q) && q@ == page_sql_of(table_name@, o, page_offset_of(page)),
            Err(e) => r matches Err(x) && x@ == e,
        },
{
    let order = order_clause(table_name, sort_column, sort_dir)?;
    let offset = page_offset(page);
    let mut q = concat2("SELECT * FROM ", table_name);
    q.append(" ");
    q.append(order.as_str());
    q.append(" LIMIT 500 OFFSET ");
    let n = u64_text(offset as u64);
    q.append(n.as_str());
    Ok(q)
}

/// The offset that [`page_offset`] returns.
pub open spec fn page_offset_of(page: Option<u32>) -> u32 {
    if page.unwrap_or(0) * PAGE_SIZE > u32::MAX {
        u32::MAX
    } else {
        (page.unwrap_or(0) * PAGE_SIZE) as u32
    }
}

/// Refuses a table that the preview does not know.
pub fn check_preview_table(table_name: &str) -> (r: Result<(), String>)
    ensures
        table_comment_of(table_name@) is Some ==> r is Ok,
        table_comment_of(table_name@) is None ==> (r matches Err(e) && e@
            == "プレビュー未登録のテーブルです: "@ + table_name@),
{
    match get_table_comment(table_name) {
        Some(_) => Ok(()),
        None => Err(concat2("プレビュー未登録のテーブルです: ", table_name)),
    }
}

/// The error for a registered table that the database does not hold.
pub fn missing_table_error(table_name: &str) -> (r: String)
    ensures
        r@ == "指定テーブルが見つかりませんでした: "@ + table_name@,
{
    concat2("指定テーブルが見つかりませんでした: ", table_name)
}

/// The tables and views to list: those of the registry that the database
/// holds, in registry order.
pub open spec fn visible_names(reg: Seq<TableCommentView>, present: Seq<Seq<char>>) -> Seq<Seq<char>>
    decreases reg.len(),
{
    if reg.len() == 0 {
        Seq::empty()
    } else {
        let before = visible_names(reg.drop_last(), present);
        if present.contains(reg.last().name) {
            before.push(reg.last().name)
        } else {
            before
        }
    }
}

/// Whether a list of strings holds one equal to `name`.
fn holds_name(names: &Vec<String>, name: &str) -> (r: bool)
    ensures
        r == views(names@).contains(name@),
{
    let mut i: usize = 0;
    while i < names.len()
        invariant
            i <= names.len(),
            forall|j: int| 0 <= j < i ==> names@[j]@ != name@,
        decreases names.len() - i,
    {
        if str_eq(names[i].as_str(), name) {
            assert(views(names@)[i as int] == name@);
            return true;
        }
        i = i + 1;
    }
    proof {
        if views(names@).contains(name@) {
            let j = choose|j: int| 0 <= j < views(names@).len() && views(names@)[j] == name@;
            assert(names@[j]@ == name@);
        }
    }
    false
}

/// The registered tables and views that the database holds, in registry order.
pub fn visible_objects(db_objects: &Vec<String>) -> (r: Vec<String>)
    ensures
        views(r@) == visible_names(table_registry(), views(db_objects@)),
{
    let reg = table_comments();
    let ghost spec_reg = table_registry();
    let mut out: Vec<String> = Vec::new();
    let mut i: usize = 0;
    while i < reg.len()
        invariant
            table_views(reg@) == spec_reg,
            i <= reg.len(),
            views(out@) == visible_names(spec_reg.take(i as int), views(db_objects@)),
        decreases reg.len() - i,
    {
        assert(spec_reg.take(i + 1).drop_last() =~= spec_reg.take(i as int));
        assert(spec_reg[i as int] == reg@[i as int]@);
        if holds_name(db_objects, reg[i].name) {
            out.push(owned(reg[i].name));
            assert(views(out@) =~= visible_names(spec_reg.take(i as int), views(db_objects@)).push(
                spec_reg[i as int].name,
            ));
        }
        i = i + 1;
    }
    assert(spec_reg.take(reg.len() as int) =~= spec_reg);
    out
}

/// The summary line of a listed table or view: its registered texts, and
/// fallbacks for one the registry does not hold.
pub fn table_summary(name: String) -> (r: DbTableSummary)
    ensures
        r.name@ == name@,
        match table_comment_of(name@) {
            Some(t) => r.label@ == t.label && r.description@ == t.description && r.storage@
                == t.storage && r.is_view == t.is_view,
            None => r.label@ == name@ && r.description@ == "テーブル説明は未登録です。"@
                && r.storage@ == "DB"@ && !r.is_view,
        },
{
    match get_table_comment(name.as_str()) {
        Some(t) => DbTableSummary {
            label: owned(t.label),
            description: owned(t.description),
            storage: owned(t.storage),
            is_view: t.is_view,
            name,
        },
        None => DbTableSummary {
            label: owned(name.as_str()),
            description: owned("テーブル説明は未登録です。"),
            storage: owned("DB"),
            is_view: false,
            name,
        },
    }
}

/// The metadata of a preview column: its registered texts, and fallbacks
/// for one the registry does not hold.
pub fn column_meta(table_name: &str, column_name: &str) -> (r: DbColumnMeta)
    ensures
        r.name@ == column_name@,
        match column_comment_of(table_name@, column_name@) {
            Some(c) => r.label@ == c.label && r.description@ == c.description,
            None => r.label@ == column_name@ && r.description@ == "カラム説明は未登録です。"@,
        },
{
    match get_column_comment(table_name, column_name) {
        Some(c) => DbColumnMeta {
            name: owned(column_name),
            label: owned(c.label),
            description: owned(c.description),
        },
        None => DbColumnMeta {
            name: owned(column_name),
            label: owned(column_name),
            description: owned("カラム説明は未登録です。"),
        },
    }
}

/// One cell of a preview row, as the database stores it (floating-point
/// cells are rendered by the caller).
pub enum CellValue {
    Null,
    Integer(i64),
    Text(String),
    Blob(Vec<u8>),
}

/// How a cell is shown: `NULL`, the decimal integer, the text itself, or
/// `<BLOB>`.
pub open spec fn cell_text(v: CellValue) -> Seq<char> {
    match v {
        CellValue::Null => "NULL"@,
        CellValue::Integer(n) => signed_decimal(n as int),
        CellValue::Text(t) => t@,
        CellValue::Blob(_) => "<BLOB>"@,
    }
}

/// Renders one cell of a preview row.
pub fn format_cell(value: CellValue) -> (r: String)
    ensures
        r@ == cell_text(value),
{
    match value {
        CellValue::Null => owned("NULL"),
        CellValue::Integer(n) => i64_text(n),
        CellValue::Text(t) => t,
        CellValue::Blob(_) => owned("<BLOB>"),
    }
}

/// Assembles a preview page: the table's registered texts (or fallbacks),
/// the metadata of each result column, the rendered rows and the row count.
pub fn build_table_data(
    table_name: &str,
    storage_label: &str,
    column_names: &Vec<String>,
    rows: Vec<Vec<String>>,
    total_rows: u32,
) -> (r: TableData)
    ensures
        r.name@ == table_name@,
        match table_comment_of(table_name@) {
            Some(t) => r.label@ == t.label && r.description@ == t.description && r.storage@
                == t.storage,
            None => r.label@ == table_name@ && r.description@ == "テーブル説明は未登録です。"@
                && r.storage@ == storage_label@,
        },
        r.columns.len() == column_names.len(),
        forall|i: int|
            0 <= i < column_names.len() ==> {
                let m = #[trigger] r.columns@[i];
                &&& m.name@ == column_names@[i]@
                &&& match column_comment_of(table_name@, column_names@[i]@) {
                    Some(c) => m.label@ == c.label && m.description@ == c.description,
                    None => m.label@ == column_names@[i]@ && m.description@
                        == "カラム説明は未登録です。"@,
                }
            },
        r.rows@ == rows@,
        r.total_rows == total_rows,
{
    let mut columns: Vec<DbColumnMeta> = Vec::new();
    let mut i: usize = 0;
    while i < column_names.len()
        invariant
            i <= column_names.len(),
            columns.len() == i,
            forall|k: int|
                0 <= k < i ==> {
                    let m = #[trigger] columns@[k];
                    &&& m.name@ == column_names@[k]@
                    &&& match column_comment_of(table_name@, column_names@[k]@) {
                        Some(c) => m.label@ == c.label && m.description@ == c.description,
                        None => m.label@ == column_names@[k]@ && m.description@
                            == "カラム説明は未登録です。"@,
                    }
                },
        decreases column_names.len() - i,
    {
        let m = column_meta(table_name, column_names[i].as_str());
        columns.push(m);
        i = i + 1;
    }
    let (label, description, storage) = match get_table_comment(table_name) {
        Some(t) => (owned(t.label), owned(t.description), owned(t.storage)),
        None => (owned(table_name), owned("テーブル説明は未登録です。"), owned(storage_label)),
    };
    TableData {
        name: owned(table_name),
        label,
        description,
        storage,
        columns,
        rows,
        total_rows,
    }
}

} // verus!
