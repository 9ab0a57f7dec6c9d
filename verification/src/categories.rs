//! The category master list: the skill-market categories, with the design
//! category's sub-categories, and a category for job and part-time listings.
use vstd::prelude::*;

verus! {

broadcast use vstd::string::group_string_axioms;

/// A top-level category and its sub-categories.
#[derive(Debug, Clone)]
pub struct Category {
    pub name: &'static str,
    pub children: Vec<&'static str>,
}

/// The names of the top-level categories, in order.
pub open spec fn category_names() -> Seq<Seq<char>> {
    seq![
        "イラスト作成・漫画制作"@,
        "デザイン制作"@,
        "Web制作・HP作成・EC構築"@,
        "動画編集・映像制作"@,
        "集客・マーケティング相談"@,
        "ビジネス代行・事務代行"@,
        "音楽制作・ナレーション"@,
        "IT相談・システム開発"@,
        "ライティング・翻訳"@,
        "コンサルティング・士業"@,
        "生成AI活用・開発・制作"@,
        "占い"@,
        "悩み相談・カウンセリング"@,
        "学習指導・資格・キャリア相談"@,
        "住まい・美容・生活相談"@,
        "オンラインレッスン・習い事"@,
        "ハンドメイド制作"@,
        "出張撮影・出張サービス"@,
        "資産運用・副業の相談"@,
        "弁護士検索・法律Q&A（法律相談）"@,
        "求人・アルバイト情報"@
    ]
}

/// Where the category with sub-categories stands in the list.
pub const DESIGN_CATEGORY_INDEX: usize = 1;

/// The sub-categories of the design category, in order.
pub open spec fn design_children() -> Seq<Seq<char>> {
    seq![
        "ロゴ作成・ロゴデザイン"@,
        "チラシ作成・フライヤーデザイン"@,
        "建築・パース作成・インテリア"@,
        "名刺作成・名刺デザイン"@,
        "パンフレット作成・カタログデザイン"@,
        "ポスター作成・看板デザイン"@,
        "製品設計・プロダクトデザイン"@,
        "パッケージデザイン・ラベル作成"@,
        "ファッション・グッズデザイン"@,
        "結婚式アイテム作成・記念日デザイン"@,
        "書籍デザイン・表紙作成"@,
        "メニュー表作成・POPデザイン"@,
        "デザイン修正・サイズ変更"@,
        "写真加工・画像編集"@,
        "文字デザイン・筆文字作成"@,
        "展示会ブースデザイン作成"@,
        "AI生成画像の加工・レタッチ"@,
        "その他（デザイン制作）"@,
        "Webサイトデザイン"@,
        "サムネイル・画像デザイン"@,
        "デザインレッスン"@
    ]
}

/// The sub-categories of the `i`-th category.
pub open spec fn children_of(i: int) -> Seq<Seq<char>> {
    if i == DESIGN_CATEGORY_INDEX {
        design_children()
    } else {
        Seq::<Seq<char>>::empty()
    }
}

pub open spec fn texts(v: Seq<&'static str>) -> Seq<Seq<char>> {
    v.map_values(|s: &'static str| s@)
}

/// The category master list.
pub fn categories() -> (list: Vec<Category>)
    ensures
        list@.len() == category_names().len(),
        forall|i: int|
            0 <= i < list@.len() ==> (#[trigger] list@[i]).name@ == category_names()[i]
                && texts(list@[i].children@) == children_of(i),
{
    let mut list: Vec<Category> = Vec::new();
    list.push(Category { name: "イラスト作成・漫画制作", children: Vec::new() });
    let mut children: Vec<&'static str> = Vec::new();
    children.push("ロゴ作成・ロゴデザイン");
    children.push("チラシ作成・フライヤーデザイン");
    children.push("建築・パース作成・インテリア");
    children.push("名刺作成・名刺デザイン");
    children.push("パンフレット作成・カタログデザイン");
    children.push("ポスター作成・看板デザイン");
    children.push("製品設計・プロダクトデザイン");
    children.push("パッケージデザイン・ラベル作成");
    children.push("ファッション・グッズデザイン");
    children.push("結婚式アイテム作成・記念日デザイン");
    children.push("書籍デザイン・表紙作成");
    children.push("メニュー表作成・POPデザイン");
    children.push("デザイン修正・サイズ変更");
    children.push("写真加工・画像編集");
    children.push("文字デザイン・筆文字作成");
    children.push("展示会ブースデザイン作成");
    children.push("AI生成画像の加工・レタッチ");
    children.push("その他（デザイン制作）");
    children.push("Webサイトデザイン");
    children.push("サムネイル・画像デザイン");
    children.push("デザインレッスン");
    list.push(Category { name: "デザイン制作", children });
    list.push(Category { name: "Web制作・HP作成・EC構築", children: Vec::new() });
    list.push(Category { name: "動画編集・映像制作", children: Vec::new() });
    list.push(Category { name: "集客・マーケティング相談", children: Vec::new() });
    list.push(Category { name: "ビジネス代行・事務代行", children: Vec::new() });
    list.push(Category { name: "音楽制作・ナレーション", children: Vec::new() });
    list.push(Category { name: "IT相談・システム開発", children: Vec::new() });
    list.push(Category { name: "ライティング・翻訳", children: Vec::new() });
    list.push(Category { name: "コンサルティング・士業", children: Vec::new() });
    list.push(Category { name: "生成AI活用・開発・制作", children: Vec::new() });
    list.push(Category { name: "占い", children: Vec::new() });
    list.push(Category { name: "悩み相談・カウンセリング", children: Vec::new() });
    list.push(Category { name: "学習指導・資格・キャリア相談", children: Vec::new() });
    list.push(Category { name: "住まい・美容・生活相談", children: Vec::new() });
    list.push(Category { name: "オンラインレッスン・習い事", children: Vec::new() });
    list.push(Category { name: "ハンドメイド制作", children: Vec::new() });
    list.push(Category { name: "出張撮影・出張サービス", children: Vec::new() });
    list.push(Category { name: "資産運用・副業の相談", children: Vec::new() });
    list.push(Category { name: "弁護士検索・法律Q&A（法律相談）", children: Vec::new() });
    list.push(Category { name: "求人・アルバイト情報", children: Vec::new() });
    assert forall|i: int| 0 <= i < list@.len() implies (#[trigger] list@[i]).name@
        == category_names()[i] && texts(list@[i].children@) == children_of(i) by {
        assert(texts(list@[i].children@) =~= children_of(i));
    }
    list
}

/// Whether `category` names a top-level category of the master list.
pub open spec fn is_listed_category(category: Seq<char>) -> bool {
    category_names().contains(category)
}

} // verus!
