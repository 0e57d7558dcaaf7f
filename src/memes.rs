//! The meme catalogue: categories, the built-in memes, search, and the source traits.

use vstd::prelude::*;

verus! {

/// The category of a meme.
#[derive(PartialEq, Eq, Structural, Clone, Copy, Debug)]
pub enum MemeCategory {
    ComponentMemes,
    WorkflowMemes,
    WikidataMemes,
    CryptoMemes,
    LeanMemes,
    FunMemes,
}

/// One meme of the catalogue.
#[derive(Debug)]
pub struct Meme {
    pub id: String,
    pub name: String,
    pub description: String,
    pub category: MemeCategory,
    pub emoji: String,
    pub content: String,
    pub tags: Vec<String>,
}

/// The model of a meme.
pub struct MemeView {
    pub id: Seq<char>,
    pub name: Seq<char>,
    pub description: Seq<char>,
    pub category: MemeCategory,
    pub emoji: Seq<char>,
    pub content: Seq<char>,
    pub tags: Seq<Seq<char>>,
}

impl View for Meme {
    type V = MemeView;

    open spec fn view(&self) -> MemeView {
        MemeView {
            id: self.id@,
            name: self.name@,
            description: self.description@,
            category: self.category,
            emoji: self.emoji@,
            content: self.content@,
            tags: views_of(self.tags@),
        }
    }
}

/// The models of a sequence of memes.
pub open spec fn memes_view(s: Seq<Meme>) -> Seq<MemeView> {
    s.map_values(|m: Meme| m@)
}

pub open spec fn category_name_spec(c: MemeCategory) -> Seq<char> {
    match c {
        MemeCategory::ComponentMemes => "Component Memes"@,
        MemeCategory::WorkflowMemes => "Workflow Memes"@,
        MemeCategory::WikidataMemes => "Wikidata Memes"@,
        MemeCategory::CryptoMemes => "Crypto Memes"@,
        MemeCategory::LeanMemes => "Lean Memes"@,
        MemeCategory::FunMemes => "Fun Memes"@,
    }
}

pub open spec fn category_emoji_spec(c: MemeCategory) -> Seq<char> {
    match c {
        MemeCategory::ComponentMemes => "🧩"@,
        MemeCategory::WorkflowMemes => "⚡"@,
        MemeCategory::WikidataMemes => "📚"@,
        MemeCategory::CryptoMemes => "🚀"@,
        MemeCategory::LeanMemes => "🎯"@,
        MemeCategory::FunMemes => "🎉"@,
    }
}

/// The display name of a category.
pub fn category_name(category: &MemeCategory) -> (r: &'static str)
    ensures
        r@ == category_name_spec(*category),
{
    match category {
        MemeCategory::ComponentMemes => "Component Memes",
        MemeCategory::WorkflowMemes => "Workflow Memes",
        MemeCategory::WikidataMemes => "Wikidata Memes",
        MemeCategory::CryptoMemes => "Crypto Memes",
        MemeCategory::LeanMemes => "Lean Memes",
        MemeCategory::FunMemes => "Fun Memes",
    }
}

/// The emoji of a category.
pub fn category_emoji(category: &MemeCategory) -> (r: &'static str)
    ensures
        r@ == category_emoji_spec(*category),
{
    match category {
        MemeCategory::ComponentMemes => "🧩",
        MemeCategory::WorkflowMemes => "⚡",
        MemeCategory::WikidataMemes => "📚",
        MemeCategory::CryptoMemes => "🚀",
        MemeCategory::LeanMemes => "🎯",
        MemeCategory::FunMemes => "🎉",
    }
}

/// The emoji of the category with display name `name`; "❓" for a name of no category.
pub open spec fn emoji_for_name(name: Seq<char>) -> Seq<char> {
    if name == "Component Memes"@ {
        "🧩"@
    } else if name == "Workflow Memes"@ {
        "⚡"@
    } else if name == "Wikidata Memes"@ {
        "📚"@
    } else if name == "Crypto Memes"@ {
        "🚀"@
    } else if name == "Lean Memes"@ {
        "🎯"@
    } else if name == "Fun Memes"@ {
        "🎉"@
    } else {
        "❓"@
    }
}

/// The emoji of the category with display name `name` (see `emoji_for_name`).
pub fn emoji_for_category_name(name: &str) -> (r: String)
    ensures
        r@ == emoji_for_name(name@),
{
    let n = String::from_str(name);
    if n == String::from_str("Component Memes") {
        String::from_str("🧩")
    } else if n == String::from_str("Workflow Memes") {
        String::from_str("⚡")
    } else if n == String::from_str("Wikidata Memes") {
        String::from_str("📚")
    } else if n == String::from_str("Crypto Memes") {
        String::from_str("🚀")
    } else if n == String::from_str("Lean Memes") {
        String::from_str("🎯")
    } else if n == String::from_str("Fun Memes") {
        String::from_str("🎉")
    } else {
        String::from_str("❓")
    }
}

/// What `str::to_lowercase` gives for `s`.
pub uninterp spec fn lower_of(s: Seq<char>) -> Seq<char>;

/// Relies on `str::to_lowercase`: the lowercase form, a function of the characters alone.
#[verifier::external_body]
fn lowercase(s: &str) -> (r: String)
    ensures
        r@ == lower_of(s@),
{
    s.to_lowercase()
}

/// Whether `needle` occurs in `hay` as a contiguous run.
pub open spec fn occurs_in(hay: Seq<char>, needle: Seq<char>) -> bool {
    exists|i: int| 0 <= i && i + needle.len() <= hay.len() && #[trigger] hay.subrange(i, i + needle.len()) == needle
}

fn occurs_at(hay: &str, needle: &str, at: usize, hn: usize, nn: usize) -> (r: bool)
    requires
        hn == hay@.len(),
        nn == needle@.len(),
        at + nn <= hn,
    ensures
        r == (hay@.subrange(at as int, at + nn) == needle@),
{
    let mut k: usize = 0;
    while k < nn
        invariant
            hn == hay@.len(),
            nn == needle@.len(),
            at + nn <= hn,
            k <= nn,
            forall|j: int| 0 <= j < k ==> hay@[at + j] == needle@[j],
        decreases nn - k,
    {
        if hay.get_char(at + k) != needle.get_char(k) {
            proof {
                assert(hay@.subrange(at as int, at + nn)[k as int] != needle@[k as int]);
            }
            return false;
        }
        k = k + 1;
    }
    proof {
        assert(hay@.subrange(at as int, at + nn) =~= needle@);
    }
    true
}

/// Whether `needle` occurs in `hay`.
pub fn contains_text(hay: &str, needle: &str) -> (r: bool)
    ensures
        r == occurs_in(hay@, needle@),
{
    let hn = hay.unicode_len();
    let nn = needle.unicode_len();
    if nn > hn {
        proof {
            assert(!occurs_in(hay@, needle@));
        }
        return false;
    }
    if nn == 0 {
        proof {
            assert(hay@.subrange(0int, 0int + needle@.len()) =~= needle@);
        }
        return true;
    }
    let mut i: usize = 0;
    while i <= hn - nn
        invariant
            hn == hay@.len(),
            nn == needle@.len(),
            0 < nn <= hn,
            i <= hn - nn + 1,
            forall|j: int| 0 <= j < i ==> #[trigger] hay@.subrange(j, j + nn) != needle@,
        decreases hn - nn + 1 - i,
    {
        if occurs_at(hay, needle, i, hn, nn) {
            return true;
        }
        i = i + 1;
    }
    false
}

/// Whether a meme with these lowercase texts matches the lowercase query: an empty query
/// matches everything, otherwise the query must occur in the name, the description or a tag.
pub open spec fn matches_folded(query: Seq<char>, name: Seq<char>, description: Seq<char>, tags: Seq<Seq<char>>) -> bool {
    query.len() == 0 || occurs_in(name, query) || occurs_in(description, query) || exists|i: int|
        0 <= i < tags.len() && occurs_in(#[trigger] tags[i], query)
}

pub open spec fn lower_tags(tags: Seq<Seq<char>>) -> Seq<Seq<char>> {
    tags.map_values(|t: Seq<char>| lower_of(t))
}

pub open spec fn views_of(v: Seq<String>) -> Seq<Seq<char>> {
    v.map_values(|t: String| t@)
}

/// Whether the lowercase query occurs in the lowercase texts of a meme (see `matches_folded`).
pub fn meme_matches_folded(query: &str, name: &str, description: &str, tags: &Vec<String>) -> (r: bool)
    ensures
        r == matches_folded(query@, name@, description@, views_of(tags@)),
{
    if query.unicode_len() == 0 {
        return true;
    }
    if contains_text(name, query) || contains_text(description, query) {
        return true;
    }
    let mut i: usize = 0;
    while i < tags.len()
        invariant
            i <= tags@.len(),
            query@.len() > 0,
            !occurs_in(name@, query@),
            !occurs_in(description@, query@),
            forall|j: int| 0 <= j < i ==> !occurs_in(#[trigger] views_of(tags@)[j], query@),
        decreases tags@.len() - i,
    {
        if contains_text(tags[i].as_str(), query) {
            proof {
                assert(views_of(tags@)[i as int] == tags@[i as int]@);
            }
            return true;
        }
        i = i + 1;
    }
    false
}

/// Whether `m` is kept by a search for `query` in `category`.
pub open spec fn meme_selected(m: MemeView, category: MemeCategory, query: Seq<char>) -> bool {
    m.category == category && (query.len() == 0 || matches_folded(
        lower_of(query),
        lower_of(m.name),
        lower_of(m.description),
        lower_tags(m.tags),
    ))
}

/// The memes of `memes` that a search keeps, in their order.
pub open spec fn filter_spec(memes: Seq<MemeView>, category: MemeCategory, query: Seq<char>) -> Seq<MemeView>
    decreases memes.len(),
{
    if memes.len() == 0 {
        Seq::empty()
    } else if meme_selected(memes.last(), category, query) {
        filter_spec(memes.drop_last(), category, query).push(memes.last())
    } else {
        filter_spec(memes.drop_last(), category, query)
    }
}

fn copy_strings(v: &Vec<String>) -> (r: Vec<String>)
    ensures
        r@ == v@,
{
    let mut r: Vec<String> = Vec::new();
    let mut i: usize = 0;
    while i < v.len()
        invariant
            i <= v@.len(),
            r@ == v@.subrange(0, i as int),
        decreases v@.len() - i,
    {
        r.push(v[i].clone());
        proof {
            assert(r@ =~= v@.subrange(0, i as int + 1));
        }
        i = i + 1;
    }
    proof {
        assert(v@.subrange(0, v@.len() as int) =~= v@);
    }
    r
}

impl Meme {
    /// A copy of this meme.
    pub fn duplicate(&self) -> (r: Meme)
        ensures
            r@ == self@,
    {
        Meme {
            id: self.id.clone(),
            name: self.name.clone(),
            description: self.description.clone(),
            category: self.category,
            emoji: self.emoji.clone(),
            content: self.content.clone(),
            tags: copy_strings(&self.tags),
        }
    }

    /// Whether two memes hold the same fields.
    pub fn equals(&self, other: &Meme) -> (r: bool)
        ensures
            r == (self@ == other@),
    {
        if !(self.id == other.id && self.name == other.name && self.description == other.description
            && self.category == other.category && self.emoji == other.emoji && self.content
            == other.content && self.tags.len() == other.tags.len()) {
            proof {
                if self.tags@.len() != other.tags@.len() {
                    assert(views_of(self.tags@).len() != views_of(other.tags@).len());
                }
            }
            return false;
        }
        let mut i: usize = 0;
        while i < self.tags.len()
            invariant
                i <= self.tags@.len(),
                self.tags@.len() == other.tags@.len(),
                forall|j: int| 0 <= j < i ==> self.tags@[j]@ == other.tags@[j]@,
            decreases self.tags@.len() - i,
        {
            if self.tags[i] != other.tags[i] {
                proof {
                    assert(views_of(self.tags@)[i as int] != views_of(other.tags@)[i as int]);
                }
                return false;
            }
            i = i + 1;
        }
        proof {
            assert(views_of(self.tags@) =~= views_of(other.tags@));
        }
        true
    }

    /// Whether this meme matches the search `query` (see `meme_selected`, category aside).
    fn matches_query(&self, query: &str) -> (r: bool)
        ensures
            r == (query@.len() == 0 || matches_folded(
                lower_of(query@),
                lower_of(self.name@),
                lower_of(self.description@),
                lower_tags(views_of(self.tags@)),
            )),
    {
        if query.unicode_len() == 0 {
            return true;
        }
        let q = lowercase(query);
        let name = lowercase(self.name.as_str());
        let description = lowercase(self.description.as_str());
        let mut tags: Vec<String> = Vec::new();
        let mut i: usize = 0;
        while i < self.tags.len()
            invariant
                i <= self.tags@.len(),
                tags@.len() == i,
                forall|j: int| 0 <= j < i ==> (#[trigger] tags@[j])@ == lower_of(self.tags@[j]@),
            decreases self.tags@.len() - i,
        {
            tags.push(lowercase(self.tags[i].as_str()));
            i = i + 1;
        }
        proof {
            assert(views_of(tags@) =~= lower_tags(views_of(self.tags@)));
        }
        meme_matches_folded(q.as_str(), name.as_str(), description.as_str(), &tags)
    }
}

/// The memes of `memes` in `category` that match `search_query`: an empty query keeps the
/// whole category; otherwise the lowercase query must occur in the lowercase name,
/// description or one of the tags.
pub fn filter_memes(memes: &[Meme], category: &MemeCategory, search_query: &str) -> (r: Vec<Meme>)
    ensures
        memes_view(r@) == filter_spec(memes_view(memes@), *category, search_query@),
{
    let mut r: Vec<Meme> = Vec::new();
    let mut i: usize = 0;
    while i < memes.len()
        invariant
            i <= memes@.len(),
            memes_view(r@) == filter_spec(memes_view(memes@.subrange(0, i as int)), *category, search_query@),
        decreases memes@.len() - i,
    {
        let m = &memes[i];
        let ghost before = r@;
        proof {
            let pre = memes_view(memes@.subrange(0, i as int + 1));
            assert(pre.drop_last() =~= memes_view(memes@.subrange(0, i as int)));
            assert(pre.last() == memes@[i as int]@);
        }
        if m.category == *category && m.matches_query(search_query) {
            r.push(m.duplicate());
            proof {
                assert(memes_view(r@) =~= memes_view(before).push(memes@[i as int]@));
            }
        }
        i = i + 1;
    }
    proof {
        assert(memes@.subrange(0, memes@.len() as int) =~= memes@);
    }
    r
}

fn meme(
    id: &str,
    name: &str,
    description: &str,
    category: MemeCategory,
    emoji: &str,
    content: &str,
    tag1: &str,
    tag2: &str,
    tag3: &str,
) -> (r: Meme)
    ensures
        r.id@ == id@,
        r.name@ == name@,
        r.description@ == description@,
        r.category == category,
        r.emoji@ == emoji@,
        r.content@ == content@,
        views_of(r.tags@) == seq![tag1@, tag2@, tag3@],
{
    let mut tags: Vec<String> = Vec::new();
    tags.push(String::from_str(tag1));
    tags.push(String::from_str(tag2));
    tags.push(String::from_str(tag3));
    proof {
        assert(views_of(tags@) =~= seq![tag1@, tag2@, tag3@]);
    }
    Meme {
        id: String::from_str(id),
        name: String::from_str(name),
        description: String::from_str(description),
        category,
        emoji: String::from_str(emoji),
        content: String::from_str(content),
        tags,
    }
}

/// The built-in catalogue, in order.
pub open spec fn catalogue() -> Seq<MemeView> {
    seq![
        MemeView {
            id: "comp_001"@,
            name: "Button Bonanza"@,
            description: "A collection of animated button components"@,
            category: MemeCategory::ComponentMemes,
            emoji: "🎭"@,
            content: "rsx! { button { class: \"animate-bounce\", \"Click me!\" } }"@,
            tags: seq!["button"@, "animation"@, "interactive"@],
        },
        MemeView {
            id: "comp_002"@,
            name: "Card Carousel"@,
            description: "Rotating card components with smooth transitions"@,
            category: MemeCategory::ComponentMemes,
            emoji: "🎠"@,
            content: "rsx! { div { class: \"transform rotate-3d\", \"Card content\" } }"@,
            tags: seq!["card"@, "carousel"@, "rotation"@],
        },
        MemeView {
            id: "work_001"@,
            name: "State Machine Meme"@,
            description: "Visual representation of state transitions"@,
            category: MemeCategory::WorkflowMemes,
            emoji: "⚡"@,
            content: "State: Loading -> Success -> Error -> Retry"@,
            tags: seq!["state"@, "workflow"@, "transitions"@],
        },
        MemeView {
            id: "work_002"@,
            name: "Pipeline Flow"@,
            description: "Data processing pipeline visualization"@,
            category: MemeCategory::WorkflowMemes,
            emoji: "🔄"@,
            content: "Input -> Process -> Transform -> Output"@,
            tags: seq!["pipeline"@, "data"@, "processing"@],
        },
        MemeView {
            id: "wiki_001"@,
            name: "Knowledge Graph"@,
            description: "Connected knowledge representation"@,
            category: MemeCategory::WikidataMemes,
            emoji: "🕸️"@,
            content: "Entity -> Property -> Value -> Reference"@,
            tags: seq!["knowledge"@, "graph"@, "entities"@],
        },
        MemeView {
            id: "wiki_002"@,
            name: "Semantic Web"@,
            description: "Linked data relationships"@,
            category: MemeCategory::WikidataMemes,
            emoji: "🌐"@,
            content: "Subject -> Predicate -> Object"@,
            tags: seq!["semantic"@, "linked-data"@, "rdf"@],
        },
        MemeView {
            id: "crypto_001"@,
            name: "To The Moon"@,
            description: "Classic crypto enthusiasm meme"@,
            category: MemeCategory::CryptoMemes,
            emoji: "🚀"@,
            content: "SOL 🚀🌙 HODL 💎🙌"@,
            tags: seq!["moon"@, "hodl"@, "solana"@],
        },
        MemeView {
            id: "crypto_002"@,
            name: "Diamond Hands"@,
            description: "Never selling, always holding"@,
            category: MemeCategory::CryptoMemes,
            emoji: "💎"@,
            content: "💎🙌 NEVER SELLING 💎🙌"@,
            tags: seq!["diamond"@, "hands"@, "holding"@],
        },
        MemeView {
            id: "lean_001"@,
            name: "Proof by Contradiction"@,
            description: "When the proof doesn't work out"@,
            category: MemeCategory::LeanMemes,
            emoji: "🤔"@,
            content: "assume ¬P → ⊥ → P (but at what cost?)"@,
            tags: seq!["proof"@, "contradiction"@, "logic"@],
        },
        MemeView {
            id: "lean_002"@,
            name: "Tactic Soup"@,
            description: "When you throw every tactic at the goal"@,
            category: MemeCategory::LeanMemes,
            emoji: "🍲"@,
            content: "simp; ring; omega; tauto; sorry"@,
            tags: seq!["tactics"@, "automation"@, "sorry"@],
        },
        MemeView {
            id: "fun_001"@,
            name: "This is Fine"@,
            description: "Everything is totally under control"@,
            category: MemeCategory::FunMemes,
            emoji: "🔥"@,
            content: "🐕☕ \"This is fine\" 🔥🔥🔥"@,
            tags: seq!["fine"@, "chaos"@, "coffee"@],
        },
        MemeView {
            id: "fun_002"@,
            name: "Distracted Boyfriend"@,
            description: "When new tech catches your eye"@,
            category: MemeCategory::FunMemes,
            emoji: "👀"@,
            content: "Old Framework 😠 Me 👨 New Shiny Framework 😍"@,
            tags: seq!["distracted"@, "technology"@, "frameworks"@],
        },
    ]
}

/// The built-in catalogue: two memes of each category.
pub fn get_memes() -> (r: Vec<Meme>)
    ensures
        memes_view(r@) == catalogue(),
{
    let mut v: Vec<Meme> = Vec::new();
    v.push(
        meme(
            "comp_001",
            "Button Bonanza",
            "A collection of animated button components",
            MemeCategory::ComponentMemes,
            "🎭",
            "rsx! { button { class: \"animate-bounce\", \"Click me!\" } }",
            "button",
            "animation",
            "interactive",
        ),
    );
    v.push(
        meme(
            "comp_002",
            "Card Carousel",
            "Rotating card components with smooth transitions",
            MemeCategory::ComponentMemes,
            "🎠",
            "rsx! { div { class: \"transform rotate-3d\", \"Card content\" } }",
            "card",
            "carousel",
            "rotation",
        ),
    );
    v.push(
        meme(
            "work_001",
            "State Machine Meme",
            "Visual representation of state transitions",
            MemeCategory::WorkflowMemes,
            "⚡",
            "State: Loading -> Success -> Error -> Retry",
            "state",
            "workflow",
            "transitions",
        ),
    );
    v.push(
        meme(
            "work_002",
            "Pipeline Flow",
            "Data processing pipeline visualization",
            MemeCategory::WorkflowMemes,
            "🔄",
            "Input -> Process -> Transform -> Output",
            "pipeline",
            "data",
            "processing",
        ),
    );
    v.push(
        meme(
            "wiki_001",
            "Knowledge Graph",
            "Connected knowledge representation",
            MemeCategory::WikidataMemes,
            "🕸️",
            "Entity -> Property -> Value -> Reference",
            "knowledge",
            "graph",
            "entities",
        ),
    );
    v.push(
        meme(
            "wiki_002",
            "Semantic Web",
            "Linked data relationships",
            MemeCategory::WikidataMemes,
            "🌐",
            "Subject -> Predicate -> Object",
            "semantic",
            "linked-data",
            "rdf",
        ),
    );
    v.push(
        meme(
            "crypto_001",
            "To The Moon",
            "Classic crypto enthusiasm meme",
            MemeCategory::CryptoMemes,
            "🚀",
            "SOL 🚀🌙 HODL 💎🙌",
            "moon",
            "hodl",
            "solana",
        ),
    );
    v.push(
        meme(
            "crypto_002",
            "Diamond Hands",
            "Never selling, always holding",
            MemeCategory::CryptoMemes,
            "💎",
            "💎🙌 NEVER SELLING 💎🙌",
            "diamond",
            "hands",
            "holding",
        ),
    );
    v.push(
        meme(
            "lean_001",
            "Proof by Contradiction",
            "When the proof doesn't work out",
            MemeCategory::LeanMemes,
            "🤔",
            "assume ¬P → ⊥ → P (but at what cost?)",
            "proof",
            "contradiction",
            "logic",
        ),
    );
    v.push(
        meme(
            "lean_002",
            "Tactic Soup",
            "When you throw every tactic at the goal",
            MemeCategory::LeanMemes,
            "🍲",
            "simp; ring; omega; tauto; sorry",
            "tactics",
            "automation",
            "sorry",
        ),
    );
    v.push(
        meme(
            "fun_001",
            "This is Fine",
            "Everything is totally under control",
            MemeCategory::FunMemes,
            "🔥",
            "🐕☕ \"This is fine\" 🔥🔥🔥",
            "fine",
            "chaos",
            "coffee",
        ),
    );
    v.push(
        meme(
            "fun_002",
            "Distracted Boyfriend",
            "When new tech catches your eye",
            MemeCategory::FunMemes,
            "👀",
            "Old Framework 😠 Me 👨 New Shiny Framework 😍",
            "distracted",
            "technology",
            "frameworks",
        ),
    );
    proof {
        assert(memes_view(v@) =~= catalogue());
    }
    v
}

/// Why a meme source failed.
#[derive(Debug)]
pub enum MemeLoaderError {
    MemeNotFound(String),
    CategoryNotFound(String),
    EncryptionFailed(String),
    DecryptionFailed(String),
    IoError(String),
    SerializationError(String),
    Other(String),
}

impl MemeLoaderError {
    /// The human-readable message of this error.
    pub fn message(&self) -> (r: String)
        ensures
            r@ == match self {
                MemeLoaderError::MemeNotFound(s) => "Meme not found: "@ + s@,
                MemeLoaderError::CategoryNotFound(s) => "Category not found: "@ + s@,
                MemeLoaderError::EncryptionFailed(s) => "Encryption failed: "@ + s@,
                MemeLoaderError::DecryptionFailed(s) => "Decryption failed: "@ + s@,
                MemeLoaderError::IoError(s) => "I/O error: "@ + s@,
                MemeLoaderError::SerializationError(s) => "Serialization error: "@ + s@,
                MemeLoaderError::Other(s) => "Other error: "@ + s@,
            },
    {
        match self {
            MemeLoaderError::MemeNotFound(s) => String::from_str("Meme not found: ").concat(s.as_str()),
            MemeLoaderError::CategoryNotFound(s) => String::from_str("Category not found: ").concat(s.as_str()),
            MemeLoaderError::EncryptionFailed(s) => String::from_str("Encryption failed: ").concat(s.as_str()),
            MemeLoaderError::DecryptionFailed(s) => String::from_str("Decryption failed: ").concat(s.as_str()),
            MemeLoaderError::IoError(s) => String::from_str("I/O error: ").concat(s.as_str()),
            MemeLoaderError::SerializationError(s) => String::from_str("Serialization error: ").concat(
                s.as_str(),
            ),
            MemeLoaderError::Other(s) => String::from_str("Other error: ").concat(s.as_str()),
        }
    }
}

impl From<String> for MemeLoaderError {
    fn from(s: String) -> (r: MemeLoaderError) {
        MemeLoaderError::Other(s)
    }
}

impl vstd::std_specs::convert::FromSpecImpl<String> for MemeLoaderError {
    open spec fn obeys_from_spec() -> bool {
        true
    }

    open spec fn from_spec(s: String) -> MemeLoaderError {
        MemeLoaderError::Other(s)
    }
}

/// What every meme offers to a viewer.
pub trait AnyMeme {
    fn id(&self) -> &str;

    fn name(&self) -> &str;

    fn description(&self) -> &str;

    fn category_name(&self) -> String;

    fn category_emoji(&self) -> String;

    fn emoji(&self) -> String;

    fn content(&self) -> String;

    fn tags(&self) -> &[String];
}

impl AnyMeme for Meme {
    fn id(&self) -> &str {
        self.id.as_str()
    }

    fn name(&self) -> &str {
        self.name.as_str()
    }

    fn description(&self) -> &str {
        self.description.as_str()
    }

    fn category_name(&self) -> String {
        String::from_str(category_name(&self.category))
    }

    fn category_emoji(&self) -> String {
        String::from_str(category_emoji(&self.category))
    }

    fn emoji(&self) -> String {
        self.emoji.clone()
    }

    fn content(&self) -> String {
        self.content.clone()
    }

    fn tags(&self) -> &[String] {
        self.tags.as_slice()
    }
}

/// A provider of memes.
pub trait MemeSource {
    fn get_all_memes(&self) -> Result<Vec<Meme>, MemeLoaderError>;

    fn get_memes_by_category(&self, category: &str) -> Result<Vec<Meme>, MemeLoaderError>;
}

/// Encryption of meme-related state, for sources that keep it sealed.
pub trait EncryptedState {
    fn encrypt(&self, data: &[u8], key: &[u8]) -> Result<Vec<u8>, MemeLoaderError>;

    fn decrypt(&self, data: &[u8], key: &[u8]) -> Result<Vec<u8>, MemeLoaderError>;
}

/// Finds and loads meme sources by id.
pub trait MemeLoader {
    type Source: MemeSource;

    fn load_source(&self, source_id: &str) -> Result<Self::Source, MemeLoaderError>;
}

/// The source that serves the built-in catalogue.
pub struct StaticMemeSource;

/// The memes of `memes` whose category has the display name `category`, in order.
pub open spec fn in_category(memes: Seq<MemeView>, category: Seq<char>) -> Seq<MemeView>
    decreases memes.len(),
{
    if memes.len() == 0 {
        Seq::empty()
    } else if category_name_spec(memes.last().category) == category {
        in_category(memes.drop_last(), category).push(memes.last())
    } else {
        in_category(memes.drop_last(), category)
    }
}

impl StaticMemeSource {
    /// The memes of the catalogue whose category has the display name `category`.
    pub fn memes_in_category(&self, category: &str) -> (r: Vec<Meme>)
        ensures
            memes_view(r@) == in_category(catalogue(), category@),
    {
        let all = get_memes();
        let want = String::from_str(category);
        let mut r: Vec<Meme> = Vec::new();
        let mut i: usize = 0;
        while i < all.len()
            invariant
                i <= all@.len(),
                want@ == category@,
                memes_view(r@) == in_category(memes_view(all@.subrange(0, i as int)), category@),
            decreases all@.len() - i,
        {
            let m = &all[i];
            let ghost before = r@;
            proof {
                let pre = memes_view(all@.subrange(0, i as int + 1));
                assert(pre.drop_last() =~= memes_view(all@.subrange(0, i as int)));
                assert(pre.last() == all@[i as int]@);
            }
            if String::from_str(category_name(&m.category)) == want {
                r.push(m.duplicate());
                proof {
                    assert(memes_view(r@) =~= memes_view(before).push(all@[i as int]@));
                }
            }
            i = i + 1;
        }
        proof {
            assert(all@.subrange(0, all@.len() as int) =~= all@);

        }
        r
    }
}

impl MemeSource for StaticMemeSource {
    /// The whole catalogue; never fails.
    fn get_all_memes(&self) -> (r: Result<Vec<Meme>, MemeLoaderError>)
        ensures
            r matches Ok(v) && memes_view(v@) == catalogue(),
    {
        Ok(get_memes())
    }

    /// The memes of the catalogue whose category has the display name `category`, in order;
    /// never fails, and an unknown name gives none.
    fn get_memes_by_category(&self, category: &str) -> (r: Result<Vec<Meme>, MemeLoaderError>)
        ensures
            r matches Ok(v) && memes_view(v@) == in_category(catalogue(), category@),
    {
        Ok(self.memes_in_category(category))
    }
}

} // verus!
