//! The integer and text parts of tone mapping: choosing the operator by
//! name, pacing progress reports, and assembling the 8-bit output image.
//! The per-pixel operators are floating-point arithmetic and live outside
//! the verified library.

use vstd::prelude::*;
use crate::error::{HdrError, error_detail};
use crate::text::{
    ascii_lower, is_ascii_text, is_capitalisation_of, lemma_ascii_lower_idempotent, lowercase,
    same_text, to_lowercase,
};
use crate::raster::{image_size, rgb8_from_raw, rgb8_samples};

verus! {

/// The global tone-mapping operators.
#[derive(Debug, Clone, Copy, PartialEq, Eq, Structural)]
pub enum TonemapMethod {
    Reinhard,
    Filmic,
    Gamma,
}

/// The operator that an already lower-cased name selects, if any.
pub open spec fn method_for_lowercase(name: Seq<char>) -> Option<TonemapMethod> {
    if name == "reinhard"@ {
        Some(TonemapMethod::Reinhard)
    } else if name == "filmic"@ {
        Some(TonemapMethod::Filmic)
    } else if name == "gamma"@ {
        Some(TonemapMethod::Gamma)
    } else {
        None
    }
}

/// The operator a user-given name selects: the name is compared case-insensitively,
/// and an unknown name falls back to Reinhard.
pub open spec fn method_for_name(name: Seq<char>) -> TonemapMethod {
    match method_for_lowercase(lowercase(name)) {
        Some(m) => m,
        None => TonemapMethod::Reinhard,
    }
}

/// Law: each operator is selected by its own lower-case name, and a name
/// that is none of them in any letter case selects Reinhard.
pub proof fn lemma_method_names(name: Seq<char>)
    ensures
        method_for_lowercase("reinhard"@) == Some(TonemapMethod::Reinhard),
        method_for_lowercase("filmic"@) == Some(TonemapMethod::Filmic),
        method_for_lowercase("gamma"@) == Some(TonemapMethod::Gamma),
        method_for_lowercase(lowercase(name)) is None ==> method_for_name(name)
            == TonemapMethod::Reinhard,
{
    reveal_strlit("reinhard");
    reveal_strlit("filmic");
    reveal_strlit("gamma");
    assert("reinhard"@.len() == 8);
    assert("filmic"@.len() == 6);
    assert("gamma"@.len() == 5);
}

/// The operator that an ASCII name selects, compared without regard to letter case.
pub open spec fn method_for_ascii_name(name: Seq<char>) -> TonemapMethod {
    match method_for_lowercase(ascii_lower(name)) {
        Some(m) => m,
        None => TonemapMethod::Reinhard,
    }
}

/// Law: any capitalisation of an operator's name lowers to that name, so it
/// selects that operator; an ASCII name selects the same operator as its
/// lower-cased form, and one that lowers to none of the names selects Reinhard.
pub proof fn lemma_capitalisations_select_their_operator(k: Seq<char>)
    ensures
        is_capitalisation_of(k, "reinhard"@) ==> is_ascii_text(k) && method_for_ascii_name(k)
            == TonemapMethod::Reinhard,
        is_capitalisation_of(k, "filmic"@) ==> is_ascii_text(k) && method_for_ascii_name(k)
            == TonemapMethod::Filmic,
        is_capitalisation_of(k, "gamma"@) ==> is_ascii_text(k) && method_for_ascii_name(k)
            == TonemapMethod::Gamma,
        is_ascii_text(k) ==> is_ascii_text(ascii_lower(k)) && method_for_ascii_name(ascii_lower(k))
            == method_for_ascii_name(k),
        method_for_lowercase(ascii_lower(k)) is None ==> method_for_ascii_name(k)
            == TonemapMethod::Reinhard,
{
    lemma_method_names(k);
    lemma_ascii_lower_idempotent(k);
    if is_capitalisation_of(k, "reinhard"@) {
        assert(is_ascii_text(k));
        assert(ascii_lower(k) =~= "reinhard"@);
        assert(method_for_lowercase(ascii_lower(k)) == method_for_lowercase("reinhard"@));
    }
    if is_capitalisation_of(k, "filmic"@) {
        assert(is_ascii_text(k));
        assert(ascii_lower(k) =~= "filmic"@);
        assert(method_for_lowercase(ascii_lower(k)) == method_for_lowercase("filmic"@));
    }
    if is_capitalisation_of(k, "gamma"@) {
        assert(is_ascii_text(k));
        assert(ascii_lower(k) =~= "gamma"@);
        assert(method_for_lowercase(ascii_lower(k)) == method_for_lowercase("gamma"@));
    }
}

impl TonemapMethod {
    /// Recognizes a lower-cased operator name.
    pub fn from_lowercase_name(name: &str) -> (m: Option<TonemapMethod>)
        ensures
            m == method_for_lowercase(name@),
    {
        if same_text(name, "reinhard") {
            Some(TonemapMethod::Reinhard)
        } else if same_text(name, "filmic") {
            Some(TonemapMethod::Filmic)
        } else if same_text(name, "gamma") {
            Some(TonemapMethod::Gamma)
        } else {
            None
        }
    }

    /// Recognizes an operator name in any letter case; `None` for an unknown name.
    pub fn parse(name: &str) -> (m: Option<TonemapMethod>)
        ensures
            m == method_for_lowercase(lowercase(name@)),
            is_ascii_text(name@) ==> m == method_for_lowercase(ascii_lower(name@)),
    {
        let lower = to_lowercase(name);
        TonemapMethod::from_lowercase_name(lower.as_str())
    }

    /// The operator to run for a user-given name; unknown names use Reinhard.
    pub fn from_name(name: &str) -> (m: TonemapMethod)
        ensures
            m == method_for_name(name@),
            is_ascii_text(name@) ==> m == method_for_ascii_name(name@),
    {
        match TonemapMethod::parse(name) {
            Some(m) => m,
            None => TonemapMethod::Reinhard,
        }
    }
}

/// How many pixels pass between two progress reports: a hundredth of the
/// image, at least one.
pub fn progress_interval(total_pixels: usize) -> (interval: usize)
    ensures
        interval >= 1,
        interval == (if total_pixels / 100 >= 1 { total_pixels / 100 } else { 1 }),
{
    let hundredth = total_pixels / 100;
    if hundredth >= 1 {
        hundredth
    } else {
        1
    }
}

/// Whether the running pixel count falls on a report boundary.
pub fn should_report_progress(count: usize, interval: usize) -> (r: bool)
    requires
        interval > 0,
    ensures
        r == (count % interval == 0),
{
    count % interval == 0
}

/// The concatenation of a sequence of byte rows, first row first.
pub open spec fn concat_rows(rows: Seq<Seq<u8>>) -> Seq<u8>
    decreases rows.len(),
{
    if rows.len() == 0 {
        Seq::empty()
    } else {
        concat_rows(rows.drop_last()) + rows.last()
    }
}

/// The byte rows as sequences.
pub open spec fn rows_view(rows: Seq<Vec<u8>>) -> Seq<Seq<u8>> {
    rows.map_values(|r: Vec<u8>| r@)
}

/// Joins rows of bytes into one buffer, first row first.
pub fn join_rows(rows: &Vec<Vec<u8>>) -> (out: Vec<u8>)
    ensures
        out@ == concat_rows(rows_view(rows@)),
{
    let mut out: Vec<u8> = Vec::new();
    let mut i: usize = 0;
    while i < rows.len()
        invariant
            i <= rows@.len(),
            out@ == concat_rows(rows_view(rows@).take(i as int)),
        decreases rows@.len() - i,
    {
        let ghost before = out@;
        let mut row = rows[i].clone();
        out.append(&mut row);
        proof {
            let rv = rows_view(rows@);
            assert(rv.take(i + 1).drop_last() =~= rv.take(i as int));
            assert(rv.take(i + 1).last() == rows@[i as int]@);
        }
        i = i + 1;
    }
    assert(rows_view(rows@).take(rows@.len() as int) =~= rows_view(rows@));
    out
}

/// The total number of bytes in the rows.
pub open spec fn total_len(rows: Seq<Seq<u8>>) -> nat
    decreases rows.len(),
{
    if rows.len() == 0 {
        0
    } else {
        total_len(rows.drop_last()) + rows.last().len()
    }
}

proof fn lemma_total_len_prefix(rows: Seq<Seq<u8>>, i: int)
    requires
        0 <= i < rows.len(),
    ensures
        total_len(rows.take(i + 1)) == total_len(rows.take(i)) + rows[i].len(),
        total_len(rows.take(i)) + rows[i].len() <= total_len(rows),
    decreases rows.len(),
{
    assert(rows.take(i + 1).drop_last() =~= rows.take(i));
    if i + 1 == rows.len() {
        assert(rows.take(i + 1) =~= rows);
    } else {
        let init = rows.drop_last();
        lemma_total_len_prefix(init, i);
        assert(init.take(i + 1) =~= rows.take(i + 1));
        assert(init.take(i) =~= rows.take(i));
        assert(init[i] == rows[i]);
    }
}

/// Law: joining rows lays them end to end: the result holds as many bytes
/// as all the rows together, and byte `k` of row `i` sits right after the
/// bytes of the rows before it.
pub proof fn lemma_joined_rows_layout(rows: Seq<Seq<u8>>)
    ensures
        concat_rows(rows).len() == total_len(rows),
        forall|i: int, k: int|
            0 <= i < rows.len() && 0 <= k < rows[i].len() ==> concat_rows(rows)[total_len(rows.take(i)) + k]
                == #[trigger] rows[i][k],
    decreases rows.len(),
{
    if rows.len() > 0 {
        let init = rows.drop_last();
        lemma_joined_rows_layout(init);
        let n = rows.len() - 1;
        assert forall|i: int, k: int|
            0 <= i < rows.len() && 0 <= k < rows[i].len() implies concat_rows(rows)[total_len(rows.take(i)) + k]
                == #[trigger] rows[i][k] by {
            if i < n {
                assert(init.take(i) =~= rows.take(i));
                assert(init[i] == rows[i]);
                lemma_total_len_prefix(init, i);
                assert(init[i][k] == concat_rows(init)[total_len(init.take(i)) + k]);
            } else {
                assert(rows.take(i) =~= init);
            }
        }
    }
}

/// Law: rows of exactly `3 * width` bytes each join into `3 * width` bytes
/// per row, so `height` such rows always make a `width` x `height` image:
/// the per-pixel operators, which fill every row completely, never meet the
/// buffer error.
pub proof fn lemma_full_rows_fill_image(rows: Seq<Seq<u8>>, width: nat)
    requires
        forall|i: int| 0 <= i < rows.len() ==> #[trigger] rows[i].len() == 3 * width,
    ensures
        concat_rows(rows).len() == 3 * width * rows.len(),
    decreases rows.len(),
{
    if rows.len() > 0 {
        let init = rows.drop_last();
        assert forall|i: int| 0 <= i < init.len() implies #[trigger] init[i].len() == 3 * width by {
            assert(init[i] == rows[i]);
        }
        lemma_full_rows_fill_image(init, width);
        assert(rows.last() == rows[rows.len() - 1]);
        let n = rows.len() as int;
        assert(3 * width * (n - 1) + 3 * width == 3 * width * n) by (nonlinear_arith);
    }
}

/// Builds the 8-bit RGB output image of the given size from its rows of
/// bytes, joined in order. It fails, with a tone-mapping error, exactly when
/// the rows hold fewer than `3 * width * height` bytes in all.
pub fn rgb8_image_from_rows(width: u32, height: u32, rows: &Vec<Vec<u8>>) -> (r: Result<
    ::image::DynamicImage,
    HdrError,
>)
    ensures
        r is Ok <==> 3 * width * height <= concat_rows(rows_view(rows@)).len(),
        r matches Ok(img) ==> image_size(img) == (width, height) && rgb8_samples(img)
            == concat_rows(rows_view(rows@)),
        r matches Err(e) ==> e is Tonemap && error_detail(e) == "Failed to create image buffer"@,
{
    let data = join_rows(rows);
    match rgb8_from_raw(width, height, data) {
        Some(img) => Ok(img),
        None => Err(HdrError::Tonemap(String::from_str("Failed to create image buffer"))),
    }
}

} // verus!
