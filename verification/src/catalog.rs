//! The catalog of encodings that the downloader reports for a medium, read
//! from its JSON description and put in order.

use vstd::prelude::*;
use vstd::string::*;
use crate::json::JsonValue;
use crate::text::same_text;

verus! {

/// One encoding that the downloader offers.
#[derive(Debug, PartialEq, Eq)]
pub struct EncodingVariant {
    /// The downloader's identifier of the format.
    pub format_id: String,
    /// The container's file extension.
    pub ext: String,
    /// The resolution as the downloader words it.
    pub resolution: String,
    /// The height in pixels, 0 where it is unknown.
    pub height: u64,
    /// The size in bytes, exact or estimated, where the downloader knows one.
    pub filesize: Option<u64>,
    /// The video codec.
    pub vcodec: String,
}

/// What an `EncodingVariant` holds, as mathematical values.
pub struct VariantModel {
    pub format_id: Seq<char>,
    pub ext: Seq<char>,
    pub resolution: Seq<char>,
    pub height: u64,
    pub filesize: Option<u64>,
    pub vcodec: Seq<char>,
}

impl View for EncodingVariant {
    type V = VariantModel;

    open spec fn view(&self) -> VariantModel {
        VariantModel {
            format_id: self.format_id@,
            ext: self.ext@,
            resolution: self.resolution@,
            height: self.height,
            filesize: self.filesize,
            vcodec: self.vcodec@,
        }
    }
}

/// The encodings of a medium, with its title and the address of its
/// thumbnail.
#[derive(Debug, PartialEq, Eq)]
pub struct MediaCatalog {
    pub title: String,
    pub thumbnail: String,
    pub formats: Vec<EncodingVariant>,
}

/// What a `MediaCatalog` holds, as mathematical values.
pub struct CatalogModel {
    pub title: Seq<char>,
    pub thumbnail: Seq<char>,
    pub formats: Seq<VariantModel>,
}

/// The models of a sequence of variants.
pub open spec fn models(variants: Seq<EncodingVariant>) -> Seq<VariantModel> {
    variants.map_values(|v: EncodingVariant| v@)
}

impl View for MediaCatalog {
    type V = CatalogModel;

    open spec fn view(&self) -> CatalogModel {
        CatalogModel {
            title: self.title@,
            thumbnail: self.thumbnail@,
            formats: models(self.formats@),
        }
    }
}

/// The container that comes first among encodings of one height.
pub open spec fn preferred_container() -> Seq<char> {
    "mp4"@
}

/// The codec name that marks an entry without video.
pub open spec fn no_video() -> Seq<char> {
    "none"@
}

/// Whether `a` has to stand before `b`: it is higher, or as high and in the
/// preferred container while `b` is not.
pub open spec fn outranks(a: VariantModel, b: VariantModel) -> bool {
    a.height > b.height || (a.height == b.height && a.ext == preferred_container() && b.ext
        != preferred_container())
}

/// Whether neither of the two has to stand before the other.
pub open spec fn same_rank(a: VariantModel, b: VariantModel) -> bool {
    a.height == b.height && (a.ext == preferred_container()) == (b.ext == preferred_container())
}

/// Whether no variant stands behind one that it outranks.
pub open spec fn ranked(s: Seq<VariantModel>) -> bool {
    forall|i: int, j: int| 0 <= i < j < s.len() ==> !outranks(#[trigger] s[j], #[trigger] s[i])
}

/// The test for being of one rank with `r`.
pub open spec fn of_rank(r: VariantModel) -> spec_fn(VariantModel) -> bool {
    |v: VariantModel| same_rank(v, r)
}

/// The variants of one rank with `r`, in the order in which `s` has them.
pub open spec fn class_of(s: Seq<VariantModel>, r: VariantModel) -> Seq<VariantModel> {
    s.filter(of_rank(r))
}

/// Whether `out` is `inp` put in order: ranked, and with the variants of each
/// rank in the order in which `inp` has them. Nothing is added or lost, and
/// variants of one rank keep their places among themselves.
pub open spec fn arranges(out: Seq<VariantModel>, inp: Seq<VariantModel>) -> bool {
    &&& ranked(out)
    &&& forall|r: VariantModel| #[trigger] class_of(out, r) == class_of(inp, r)
}

/// A text, or a default in its place.
pub open spec fn text_or(found: Option<Seq<char>>, default: Seq<char>) -> Seq<char> {
    match found {
        Some(t) => t,
        None => default,
    }
}

/// The variant that an entry of the downloader's format list describes.
/// A missing identifier or extension reads as empty, a missing resolution as
/// `?`, a missing height as 0, a missing codec as no video; the size is the
/// exact one, else the estimate.
pub open spec fn variant_of(entry: JsonValue) -> VariantModel {
    VariantModel {
        format_id: text_or(entry.text_at("format_id"@), ""@),
        ext: text_or(entry.text_at("ext"@), ""@),
        resolution: text_or(entry.text_at("resolution"@), "?"@),
        height: match entry.unsigned_at("height"@) {
            Some(h) => h,
            None => 0,
        },
        filesize: match entry.unsigned_at("filesize"@) {
            Some(n) => Some(n),
            None => entry.unsigned_at("filesize_approx"@),
        },
        vcodec: text_or(entry.text_at("vcodec"@), no_video()),
    }
}

/// The test for an entry that carries video.
pub open spec fn has_video() -> spec_fn(JsonValue) -> bool {
    |entry: JsonValue| variant_of(entry).vcodec != no_video()
}

/// The variants of the entries that carry video, in the entries' order.
pub open spec fn listed(entries: Seq<JsonValue>) -> Seq<VariantModel> {
    entries.filter(has_video()).map_values(|entry: JsonValue| variant_of(entry))
}

/// The entries of a document's format list; none where it has no such list.
pub open spec fn format_entries(doc: JsonValue) -> Seq<JsonValue> {
    match doc.items_at("formats"@) {
        Some(entries) => entries,
        None => Seq::empty(),
    }
}

/// The title of a document, `Unknown` where it has none.
pub open spec fn title_of(doc: JsonValue) -> Seq<char> {
    text_or(doc.text_at("title"@), "Unknown"@)
}

/// The thumbnail address of a document, empty where it has none.
pub open spec fn thumbnail_of(doc: JsonValue) -> Seq<char> {
    text_or(doc.text_at("thumbnail"@), ""@)
}

impl MediaCatalog {
    /// The catalog's invariant: the formats are ranked, and each carries video.
    pub open spec fn well_formed(self) -> bool {
        &&& ranked(self@.formats)
        &&& forall|i: int|
            0 <= i < self@.formats.len() ==> (#[trigger] self@.formats[i]).vcodec != no_video()
    }
}

/// Adding one entry to a list adds its variant to the listed ones where it
/// carries video, and nothing where it does not.
proof fn lemma_listed_step(entries: Seq<JsonValue>, k: int)
    requires
        0 <= k < entries.len(),
    ensures
        listed(entries.take(k + 1)) == if has_video()(entries[k]) {
            listed(entries.take(k)).push(variant_of(entries[k]))
        } else {
            listed(entries.take(k))
        },
{
    reveal(Seq::filter);
    let longer = entries.take(k + 1);
    assert(longer.drop_last() =~= entries.take(k));
    assert(longer.last() == entries[k]);
    if has_video()(entries[k]) {
        assert(listed(longer) =~= listed(entries.take(k)).push(variant_of(entries[k])));
    } else {
        assert(listed(longer) =~= listed(entries.take(k)));
    }
}

/// Putting a variant in front of the first one that it outranks keeps an
/// arrangement an arrangement, of the input with that variant at its end.
proof fn lemma_insert_arranges(out: Seq<VariantModel>, inp: Seq<VariantModel>, x: VariantModel, p: int)
    requires
        arranges(out, inp),
        0 <= p <= out.len(),
        forall|i: int| 0 <= i < p ==> !outranks(x, #[trigger] out[i]),
        p < out.len() ==> outranks(x, out[p]),
    ensures
        arranges(out.insert(p, x), inp.push(x)),
{
    let next = out.insert(p, x);
    assert forall|i: int, j: int| 0 <= i < j < next.len() implies !outranks(
        #[trigger] next[j],
        #[trigger] next[i],
    ) by {
        if j < p {
            assert(next[i] == out[i] && next[j] == out[j]);
        } else if j == p {
            assert(next[i] == out[i]);
        } else if i < p {
            assert(next[i] == out[i] && next[j] == out[j - 1]);
        } else if i == p {
            assert(next[j] == out[j - 1]);
            if j - 1 > p {
                assert(!outranks(out[j - 1], out[p]));
            }
        } else {
            assert(next[i] == out[i - 1] && next[j] == out[j - 1]);
        }
    }
    assert forall|r: VariantModel| #[trigger] class_of(next, r) == class_of(inp.push(x), r) by {
        let front = out.take(p);
        let back = out.skip(p);
        let one = seq![x];
        assert(out =~= front + back);
        assert(next =~= front + one + back);
        assert(inp.push(x) =~= inp + one);
        Seq::filter_distributes_over_add(front, back, of_rank(r));
        Seq::filter_distributes_over_add(front, one, of_rank(r));
        Seq::filter_distributes_over_add(front + one, back, of_rank(r));
        Seq::filter_distributes_over_add(inp, one, of_rank(r));
        assert(class_of(out, r) == class_of(inp, r));
        assert(one.filter(of_rank(r)) =~= if same_rank(x, r) {
            one
        } else {
            Seq::empty()
        }) by {
            reveal_with_fuel(Seq::filter, 2);
            assert(one.drop_last() =~= Seq::<VariantModel>::empty());
        }
        if same_rank(x, r) {
            assert forall|i: int| 0 <= i < back.len() implies !of_rank(r)(#[trigger] back[i]) by {
                assert(back[i] == out[p + i]);
                if i > 0 {
                    assert(!outranks(out[p + i], out[p]));
                }
            }
            back.lemma_all_neg_filter_empty(of_rank(r));
            assert(back.filter(of_rank(r)) =~= Seq::empty());
            assert(class_of(next, r) =~= class_of(inp.push(x), r));
        } else {
            assert(class_of(next, r) =~= class_of(inp.push(x), r));
        }
    }
}

/// The variants of a rank in a sequence: the first one, where it is of that
/// rank, and those of the rest.
proof fn lemma_class_split(s: Seq<VariantModel>, r: VariantModel)
    requires
        s.len() > 0,
    ensures
        class_of(s, r) == (if same_rank(s[0], r) {
            seq![s[0]]
        } else {
            Seq::empty()
        }) + class_of(s.drop_first(), r),
{
    let one = seq![s[0]];
    assert(s =~= one + s.drop_first());
    Seq::filter_distributes_over_add(one, s.drop_first(), of_rank(r));
    assert(one.filter(of_rank(r)) =~= if same_rank(s[0], r) {
        one
    } else {
        Seq::empty()
    }) by {
        reveal_with_fuel(Seq::filter, 2);
        assert(one.drop_last() =~= Seq::<VariantModel>::empty());
    }
}

/// Two ranked sequences that agree on the variants of every rank are one
/// sequence.
proof fn lemma_ranked_classes_decide(a: Seq<VariantModel>, b: Seq<VariantModel>)
    requires
        ranked(a),
        ranked(b),
        forall|r: VariantModel| #[trigger] class_of(a, r) == class_of(b, r),
    ensures
        a == b,
    decreases a.len(),
{
    if a.len() == 0 || b.len() == 0 {
        if a.len() > 0 {
            a.lemma_filter_contains(of_rank(a[0]), 0);
            b.lemma_filter_len(of_rank(a[0]));
            assert(class_of(a, a[0]) == class_of(b, a[0]));
        }
        if b.len() > 0 {
            b.lemma_filter_contains(of_rank(b[0]), 0);
            a.lemma_filter_len(of_rank(b[0]));
            assert(class_of(a, b[0]) == class_of(b, b[0]));
        }
        assert(a =~= b);
    } else {
        let a0 = a[0];
        let b0 = b[0];
        assert(!outranks(a0, b0)) by {
            a.lemma_filter_contains(of_rank(a0), 0);
            assert(class_of(a, a0) == class_of(b, a0));
            b.lemma_filter_contains_rev(of_rank(a0), a0);
            let j = choose|j: int| 0 <= j < b.len() && b[j] == a0;
            if j > 0 {
                assert(!outranks(b[j], b[0]));
            }
        }
        assert(!outranks(b0, a0)) by {
            b.lemma_filter_contains(of_rank(b0), 0);
            assert(class_of(a, b0) == class_of(b, b0));
            a.lemma_filter_contains_rev(of_rank(b0), b0);
            let j = choose|j: int| 0 <= j < a.len() && a[j] == b0;
            if j > 0 {
                assert(!outranks(a[j], a[0]));
            }
        }
        assert(same_rank(a0, b0));
        lemma_class_split(a, a0);
        lemma_class_split(b, a0);
        assert(class_of(a, a0) == class_of(b, a0));
        assert(class_of(a, a0)[0] == a0);
        assert(class_of(b, a0)[0] == b0);
        let rest_a = a.drop_first();
        let rest_b = b.drop_first();
        assert(ranked(rest_a)) by {
            assert forall|i: int, j: int| 0 <= i < j < rest_a.len() implies !outranks(
                #[trigger] rest_a[j],
                #[trigger] rest_a[i],
            ) by {
                assert(!outranks(a[j + 1], a[i + 1]));
            }
        }
        assert(ranked(rest_b)) by {
            assert forall|i: int, j: int| 0 <= i < j < rest_b.len() implies !outranks(
                #[trigger] rest_b[j],
                #[trigger] rest_b[i],
            ) by {
                assert(!outranks(b[j + 1], b[i + 1]));
            }
        }
        assert forall|r: VariantModel| #[trigger] class_of(rest_a, r) == class_of(rest_b, r) by {
            lemma_class_split(a, r);
            lemma_class_split(b, r);
            assert(class_of(a, r) == class_of(b, r));
            let head = if same_rank(a0, r) {
                seq![a0]
            } else {
                Seq::empty()
            };
            assert(class_of(rest_a, r) =~= (head + class_of(rest_a, r)).skip(head.len() as int));
            assert(class_of(rest_b, r) =~= (head + class_of(rest_b, r)).skip(head.len() as int));
        }
        lemma_ranked_classes_decide(rest_a, rest_b);
        assert(a =~= seq![a0] + rest_a);
        assert(b =~= seq![b0] + rest_b);
    }
}

/// An input has one arrangement only: any two sequences that arrange it are
/// equal.
pub proof fn lemma_arrangement_is_unique(
    a: Seq<VariantModel>,
    b: Seq<VariantModel>,
    inp: Seq<VariantModel>,
)
    requires
        arranges(a, inp),
        arranges(b, inp),
    ensures
        a == b,
{
    assert forall|r: VariantModel| #[trigger] class_of(a, r) == class_of(b, r) by {
        assert(class_of(a, r) == class_of(inp, r));
        assert(class_of(b, r) == class_of(inp, r));
    }
    lemma_ranked_classes_decide(a, b);
}

/// An arrangement holds the variants of its input and no others.
pub proof fn lemma_arrangement_keeps_members(
    out: Seq<VariantModel>,
    inp: Seq<VariantModel>,
    v: VariantModel,
)
    requires
        arranges(out, inp),
    ensures
        out.contains(v) <==> inp.contains(v),
{
    assert(class_of(out, v) == class_of(inp, v));
    if out.contains(v) {
        let i = choose|i: int| 0 <= i < out.len() && out[i] == v;
        out.lemma_filter_contains(of_rank(v), i);
        inp.lemma_filter_contains_rev(of_rank(v), v);
    }
    if inp.contains(v) {
        let i = choose|i: int| 0 <= i < inp.len() && inp[i] == v;
        inp.lemma_filter_contains(of_rank(v), i);
        out.lemma_filter_contains_rev(of_rank(v), v);
    }
}

/// In a well-formed catalog each format is followed by a lower one, or by one
/// as high that is not in the preferred container unless the format itself is.
pub proof fn lemma_neighbours_in_order(catalog: MediaCatalog, i: int)
    requires
        catalog.well_formed(),
        0 <= i,
        i + 1 < catalog@.formats.len(),
    ensures
        ({
            let a = catalog@.formats[i];
            let b = catalog@.formats[i + 1];
            a.height > b.height || (a.height == b.height && !(b.ext == preferred_container()
                && a.ext != preferred_container()))
        }),
{
    let a = catalog@.formats[i];
    let b = catalog@.formats[i + 1];
    assert(!outranks(b, a));
}

/// Whether a variant is in the preferred container.
fn in_preferred_container(v: &EncodingVariant) -> (r: bool)
    ensures
        r == (v@.ext == preferred_container()),
{
    same_text(v.ext.as_str(), "mp4")
}

/// Whether `a` has to stand before `b`.
fn stands_before(a: &EncodingVariant, b: &EncodingVariant) -> (r: bool)
    ensures
        r == outranks(a@, b@),
{
    a.height > b.height || (a.height == b.height && in_preferred_container(a)
        && !in_preferred_container(b))
}

/// The text under `key` in an entry, or the default.
fn read_text(entry: &JsonValue, key: &str, default: &str) -> (s: String)
    ensures
        s@ == text_or(entry.text_at(key@), default@),
{
    match entry.get(key) {
        Some(v) => match v.as_str() {
            Some(t) => t.to_owned(),
            None => default.to_owned(),
        },
        None => default.to_owned(),
    }
}

/// The unsigned number under `key` in an entry.
fn read_unsigned(entry: &JsonValue, key: &str) -> (n: Option<u64>)
    ensures
        n == entry.unsigned_at(key@),
{
    match entry.get(key) {
        Some(v) => v.as_u64(),
        None => None,
    }
}

/// Reads one entry of the format list.
pub fn read_variant(entry: &JsonValue) -> (v: EncodingVariant)
    ensures
        v@ == variant_of(*entry),
{
    let height = match read_unsigned(entry, "height") {
        Some(h) => h,
        None => 0,
    };
    let filesize = match read_unsigned(entry, "filesize") {
        Some(n) => Some(n),
        None => read_unsigned(entry, "filesize_approx"),
    };
    EncodingVariant {
        format_id: read_text(entry, "format_id", ""),
        ext: read_text(entry, "ext", ""),
        resolution: read_text(entry, "resolution", "?"),
        height,
        filesize,
        vcodec: read_text(entry, "vcodec", "none"),
    }
}

/// Puts the variants of the entries that carry video in order: higher ones
/// first, among equally high ones those in the preferred container first, and
/// otherwise in the order of the entries.
pub fn arrange_formats(entries: &Vec<JsonValue>) -> (formats: Vec<EncodingVariant>)
    ensures
        arranges(models(formats@), listed(entries@)),
        forall|i: int|
            0 <= i < formats.len() ==> (#[trigger] models(formats@)[i]).vcodec != no_video(),
{
    let mut formats: Vec<EncodingVariant> = Vec::new();
    let mut k: usize = 0;
    proof {
        reveal(Seq::filter);
        assert(entries@.take(0) =~= Seq::<JsonValue>::empty());
        assert(listed(entries@.take(0)) =~= Seq::<VariantModel>::empty());
        assert(models(formats@) =~= Seq::<VariantModel>::empty());
        assert forall|r: VariantModel| #[trigger]
            class_of(models(formats@), r) == class_of(listed(entries@.take(0)), r) by {}
    }
    while k < entries.len()
        invariant
            k <= entries.len(),
            arranges(models(formats@), listed(entries@.take(k as int))),
            forall|i: int|
                0 <= i < formats.len() ==> (#[trigger] models(formats@)[i]).vcodec != no_video(),
        decreases entries.len() - k,
    {
        let candidate = read_variant(&entries[k]);
        proof {
            lemma_listed_step(entries@, k as int);
        }
        if !same_text(candidate.vcodec.as_str(), "none") {
            let mut p: usize = 0;
            while p < formats.len() && !stands_before(&candidate, &formats[p])
                invariant
                    p <= formats.len(),
                    forall|i: int|
                        0 <= i < p ==> !outranks(candidate@, #[trigger] models(formats@)[i]),
                decreases formats.len() - p,
            {
                p += 1;
            }
            proof {
                let before = models(formats@);
                lemma_insert_arranges(
                    before,
                    listed(entries@.take(k as int)),
                    candidate@,
                    p as int,
                );
                assert(models(formats@.insert(p as int, candidate)) =~= before.insert(
                    p as int,
                    candidate@,
                ));
            }
            formats.insert(p, candidate);
        }
        k += 1;
    }
    proof {
        assert(entries@.take(k as int) =~= entries@);
    }
    formats
}

/// Reads the catalog that a description holds. A description with no title
/// is titled `Unknown`; one with no format list has no formats.
pub fn read_catalog(doc: &JsonValue) -> (catalog: MediaCatalog)
    ensures
        catalog@.title == title_of(*doc),
        catalog@.thumbnail == thumbnail_of(*doc),
        arranges(catalog@.formats, listed(format_entries(*doc))),
        catalog.well_formed(),
{
    let title = read_text(doc, "title", "Unknown");
    let thumbnail = read_text(doc, "thumbnail", "");
    let entries = match doc.get("formats") {
        Some(v) => v.as_array(),
        None => None,
    };
    let formats = match entries {
        Some(list) => arrange_formats(list),
        None => {
            let none: Vec<JsonValue> = Vec::new();
            arrange_formats(&none)
        },
    };
    MediaCatalog { title, thumbnail, formats }
}

} // verus!
