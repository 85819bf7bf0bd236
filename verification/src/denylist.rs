//! The interface phrases that never count as product tags.
//!
//! A listing page carries buttons, menus and navigation around its tag
//! list, and their labels match the same selectors as the tags do. The
//! labels are kept here as plain data, by language.

use crate::text::{to_chars, views};
use vstd::prelude::*;

verus! {

/// Labels of the Japanese interface.
pub const JAPANESE_LABELS: [&'static str; 50] = [
    "ポストする", "シェア", "投稿", "ログイン", "サインイン",
    "登録", "カート", "購入", "決済", "支払い",
    "フォロー", "お気に入り", "いいね", "戻る", "次へ",
    "前へ", "もっと見る", "閉じる", "開く", "表示",
    "非表示", "メニュー", "検索", "絞り込み", "並び替え",
    "設定", "ヘルプ", "ホーム", "マイページ", "プロフィール",
    "通知", "メッセージ", "お知らせ", "利用規約", "プライバシー",
    "規約", "コピー", "ダウンロード", "アップロード", "編集",
    "削除", "保存", "キャンセル", "確認", "はい",
    "いいえ", "商品を見る", "詳細を見る", "もっと読む", "続きを読む",
];

/// Labels of the English interface, in alphabetical order.
pub const ENGLISH_LABELS: [&'static str; 46] = [
    "Back", "Buy", "Cancel", "Cart", "Close", "Confirm",
    "Copy", "Delete", "Download", "Edit", "Facebook", "Favorite",
    "Filter", "Follow", "Help", "Hide", "Home", "Like",
    "Login", "Menu", "Message", "More", "My page", "News",
    "Next", "No", "Notification", "OK", "Open", "Payment",
    "Policy", "Previous", "Privacy", "Profile", "Register", "Save",
    "Search", "Settings", "Share", "Sign in", "Sort", "Terms",
    "Tweet", "Upload", "View", "Yes",
];

/// The labels of both languages as texts.
pub open spec fn label_texts() -> Seq<Seq<char>> {
    JAPANESE_LABELS@.map_values(|label: &'static str| label@) + ENGLISH_LABELS@.map_values(
        |label: &'static str| label@,
    )
}

/// `text` is one of the labels, character for character.
pub open spec fn is_excluded(text: Seq<char>) -> bool {
    label_texts().contains(text)
}

/// The labels of both languages, as `label_texts` lists them.
pub fn label_list() -> (labels: Vec<Vec<char>>)
    ensures
        views(labels@) == label_texts(),
{
    let mut labels: Vec<Vec<char>> = Vec::new();
    let mut i: usize = 0;
    while i < JAPANESE_LABELS.len()
        invariant
            i <= JAPANESE_LABELS@.len(),
            views(labels@) == JAPANESE_LABELS@.take(i as int).map_values(
                |label: &'static str| label@,
            ),
        decreases JAPANESE_LABELS@.len() - i,
    {
        let ghost before = views(labels@);
        labels.push(to_chars(JAPANESE_LABELS[i]));
        assert(views(labels@) =~= before.push(JAPANESE_LABELS@[i as int]@));
        assert(views(labels@) =~= JAPANESE_LABELS@.take(i + 1).map_values(
            |label: &'static str| label@,
        ));
        i += 1;
    }
    assert(JAPANESE_LABELS@.take(JAPANESE_LABELS@.len() as int) == JAPANESE_LABELS@);
    let ghost japanese = views(labels@);
    let mut j: usize = 0;
    while j < ENGLISH_LABELS.len()
        invariant
            j <= ENGLISH_LABELS@.len(),
            japanese == JAPANESE_LABELS@.map_values(|label: &'static str| label@),
            views(labels@) == japanese + ENGLISH_LABELS@.take(j as int).map_values(
                |label: &'static str| label@,
            ),
        decreases ENGLISH_LABELS@.len() - j,
    {
        let ghost before = views(labels@);
        labels.push(to_chars(ENGLISH_LABELS[j]));
        assert(views(labels@) =~= before.push(ENGLISH_LABELS@[j as int]@));
        assert(views(labels@) =~= japanese + ENGLISH_LABELS@.take(j + 1).map_values(
            |label: &'static str| label@,
        ));
        j += 1;
    }
    assert(ENGLISH_LABELS@.take(ENGLISH_LABELS@.len() as int) == ENGLISH_LABELS@);
    labels
}

} // verus!
