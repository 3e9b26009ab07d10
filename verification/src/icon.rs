//! The status icon's pixels and the desktop-session test that picks its
//! colouring.
use vstd::prelude::*;
use vstd::arithmetic::div_mod::lemma_fundamental_div_mod_converse;

verus! {

/// A square RGBA status icon.
pub struct TrayIconRgba {
    pub width: u32,
    pub height: u32,
    pub rgba: Vec<u8>,
}

/// The alpha byte of a premultiplied ARGB pixel (its top byte).
pub open spec fn alpha_of(p: u32) -> u8 {
    (p / 16777216) as u8
}

/// Black RGBA bytes that keep only the alpha of each ARGB pixel.
pub open spec fn alpha_icon_bytes(pixels: Seq<u32>) -> Seq<u8> {
    Seq::new(
        (4 * pixels.len()) as nat,
        |i: int|
            if i % 4 == 3 {
                alpha_of(pixels[i / 4])
            } else {
                0u8
            },
    )
}

/// White bytes in (alpha, 255, 255, 255) order for each complete group of
/// four RGBA bytes, the alpha taken from the group's fourth byte.
pub open spec fn light_pixmap_bytes(rgba: Seq<u8>) -> Seq<u8> {
    Seq::new(
        (4 * (rgba.len() / 4)) as nat,
        |i: int|
            if i % 4 == 0 {
                rgba[i + 3]
            } else {
                255u8
            },
    )
}

proof fn lemma_quad(k: int, j: int)
    requires
        k >= 0,
        0 <= j < 4,
    ensures
        (4 * k + j) / 4 == k,
        (4 * k + j) % 4 == j,
{
    lemma_fundamental_div_mod_converse(4 * k + j, 4, k, j);
}

/// The light pixmap of an icon built from ARGB pixels has, for each pixel,
/// the pixel's alpha followed by three 255s.
pub proof fn law_light_pixmap_of_icon(pixels: Seq<u32>)
    ensures
        light_pixmap_bytes(alpha_icon_bytes(pixels)).len() == 4 * pixels.len(),
        forall|p: int|
            0 <= p < pixels.len() ==> light_pixmap_bytes(alpha_icon_bytes(pixels)).subrange(
                4 * p,
                4 * p + 4,
            ) == seq![alpha_of(#[trigger] pixels[p]), 255u8, 255u8, 255u8],
{
    let b = alpha_icon_bytes(pixels);
    let l = light_pixmap_bytes(b);
    lemma_quad(pixels.len() as int, 0);
    assert forall|p: int| 0 <= p < pixels.len() implies l.subrange(4 * p, 4 * p + 4) == seq![
        alpha_of(#[trigger] pixels[p]),
        255u8,
        255u8,
        255u8,
    ] by {
        lemma_quad(p, 0);
        lemma_quad(p, 1);
        lemma_quad(p, 2);
        lemma_quad(p, 3);
        assert(l[4 * p] == b[4 * p + 3]);
        assert(l.subrange(4 * p, 4 * p + 4) =~= seq![alpha_of(pixels[p]), 255u8, 255u8, 255u8]);
    }
}

/// The alpha of an ARGB pixel is its top byte, whatever the colour bytes.
pub proof fn law_alpha_is_top_byte(a: u8, rgb: u32)
    requires
        rgb < 0x100_0000,
    ensures
        alpha_of((a as int * 0x100_0000 + rgb) as u32) == a,
{
    assert((a as int * 0x100_0000 + rgb) / 16777216 == a) by (nonlinear_arith)
        requires
            rgb < 0x100_0000,
            0 <= rgb,
    ;
}

/// The icon's bytes are, for each pixel, three zero colour bytes and the
/// pixel's alpha.
pub proof fn law_icon_bytes(pixels: Seq<u32>)
    ensures
        alpha_icon_bytes(pixels).len() == 4 * pixels.len(),
        forall|p: int|
            0 <= p < pixels.len() ==> alpha_icon_bytes(pixels).subrange(4 * p, 4 * p + 4)
                == seq![0u8, 0u8, 0u8, alpha_of(#[trigger] pixels[p])],
{
    let b = alpha_icon_bytes(pixels);
    assert forall|p: int| 0 <= p < pixels.len() implies b.subrange(4 * p, 4 * p + 4) == seq![
        0u8,
        0u8,
        0u8,
        alpha_of(#[trigger] pixels[p]),
    ] by {
        lemma_quad(p, 0);
        lemma_quad(p, 1);
        lemma_quad(p, 2);
        lemma_quad(p, 3);
        assert(b.subrange(4 * p, 4 * p + 4) =~= seq![0u8, 0u8, 0u8, alpha_of(pixels[p])]);
    }
}

/// Builds a `canvas` x `canvas` icon from premultiplied ARGB pixels: every
/// pixel becomes black with its alpha kept.
pub fn icon_from_argb(canvas: u32, pixels: &Vec<u32>) -> (r: TrayIconRgba)
    ensures
        r.width == canvas,
        r.height == canvas,
        r.rgba@ == alpha_icon_bytes(pixels@),
{
    let mut rgba: Vec<u8> = Vec::new();
    let mut k: usize = 0;
    while k < pixels.len()
        invariant
            k <= pixels.len(),
            rgba@ == alpha_icon_bytes(pixels@.take(k as int)),
        decreases pixels.len() - k,
    {
        let p = pixels[k];
        let alpha = ((p >> 24) & 0xFF) as u8;
        proof {
            assert(((p >> 24) & 0xFF) as u8 == (p / 16777216) as u8) by (bit_vector);
        }
        let ghost before = rgba@;
        rgba.push(0);
        rgba.push(0);
        rgba.push(0);
        rgba.push(alpha);
        proof {
            let s = pixels@.take(k + 1);
            assert forall|i: int| 0 <= i < 4 * (k + 1) implies #[trigger] rgba@[i]
                == alpha_icon_bytes(s)[i] by {
                let q = i / 4;
                let j = i % 4;
                lemma_fundamental_div_mod_converse(i, 4, i / 4, i % 4);
                if i < 4 * k {
                    assert(q < k) by (nonlinear_arith)
                        requires
                            i < 4 * k,
                            i == 4 * q + j,
                            0 <= j < 4,
                    ;
                    assert(s[q] == pixels@.take(k as int)[q]);
                } else {
                    lemma_quad(k as int, i - 4 * k);
                    assert(s[k as int] == p);
                }
            }
            assert(rgba@ =~= alpha_icon_bytes(s));
        }
        k = k + 1;
    }
    proof {
        assert(pixels@.take(k as int) =~= pixels@);
    }
    TrayIconRgba { width: canvas, height: canvas, rgba }
}

/// The white pixmap used on GNOME: (alpha, 255, 255, 255) for each complete
/// RGBA group; a trailing partial group is dropped.
pub fn light_pixmap(rgba: &Vec<u8>) -> (r: Vec<u8>)
    ensures
        r@ == light_pixmap_bytes(rgba@),
{
    let n = rgba.len() / 4;
    let mut out: Vec<u8> = Vec::new();
    let mut k: usize = 0;
    while k < n
        invariant
            n == rgba.len() / 4,
            k <= n,
            out@ == Seq::new(
                (4 * k) as nat,
                |i: int|
                    if i % 4 == 0 {
                        rgba@[i + 3]
                    } else {
                        255u8
                    },
            ),
        decreases n - k,
    {
        assert(4 * k + 3 < rgba.len()) by (nonlinear_arith)
            requires
                k < n,
                n == rgba.len() / 4,
        ;
        let a = rgba[4 * k + 3];
        out.push(a);
        out.push(255);
        out.push(255);
        out.push(255);
        proof {
            assert forall|i: int| 0 <= i < 4 * (k + 1) implies #[trigger] out@[i] == (if i % 4
                == 0 {
                rgba@[i + 3]
            } else {
                255u8
            }) by {
                if i >= 4 * k {
                    lemma_quad(k as int, i - 4 * k);
                }
            }
            assert(out@ =~= Seq::new(
                (4 * (k + 1)) as nat,
                |i: int|
                    if i % 4 == 0 {
                        rgba@[i + 3]
                    } else {
                        255u8
                    },
            ));
        }
        k = k + 1;
    }
    out
}

/// ASCII letters lowered, everything else kept, as `to_ascii_lowercase` does.
pub open spec fn ascii_lower(c: char) -> char {
    if 'A' <= c && c <= 'Z' {
        ((c as u32) + 32) as char
    } else {
        c
    }
}

/// `s` with ASCII letters lowered.
pub open spec fn lowered(s: Seq<char>) -> Seq<char> {
    s.map_values(|c: char| ascii_lower(c))
}

/// Whether `s` holds `gnome` in any mix of ASCII case.
pub open spec fn mentions_gnome_spec(s: Seq<char>) -> bool {
    exists|i: int|
        0 <= i && i + 5 <= s.len() && #[trigger] lowered(s).subrange(i, i + 5) == "gnome"@
}

/// A value names GNOME when `gnome` appears in it in any ASCII case, wherever
/// it stands, and a value shorter than five characters never does; a value
/// that names GNOME still does with text added on either side.
pub proof fn law_mentions_gnome(a: Seq<char>, b: Seq<char>, s: Seq<char>)
    ensures
        mentions_gnome_spec(a + "gnome"@ + b),
        mentions_gnome_spec(a + "GNOME"@ + b),
        mentions_gnome_spec(a + "Gnome"@ + b),
        s.len() < 5 ==> !mentions_gnome_spec(s),
        mentions_gnome_spec(s) ==> mentions_gnome_spec(a + s + b),
{
    reveal_strlit("gnome");
    reveal_strlit("GNOME");
    reveal_strlit("Gnome");
    let i = a.len() as int;
    assert(ascii_lower('G') == 'g');
    assert(ascii_lower('N') == 'n');
    assert(ascii_lower('O') == 'o');
    assert(ascii_lower('M') == 'm');
    assert(ascii_lower('E') == 'e');
    assert(lowered(a + "gnome"@ + b).subrange(i, i + 5) =~= "gnome"@);
    assert(lowered(a + "GNOME"@ + b).subrange(i, i + 5) =~= "gnome"@);
    assert(lowered(a + "Gnome"@ + b).subrange(i, i + 5) =~= "gnome"@);
    if mentions_gnome_spec(s) {
        let k = choose|k: int|
            0 <= k && k + 5 <= s.len() && #[trigger] lowered(s).subrange(k, k + 5) == "gnome"@;
        let t = a + s + b;
        assert(lowered(t).subrange(i + k, i + k + 5) =~= lowered(s).subrange(k, k + 5));
    }
}

fn lower_matches(c: char, p: char) -> (r: bool)
    requires
        'a' <= p <= 'z',
    ensures
        r == (ascii_lower(c) == p),
{
    if 'A' <= c && c <= 'Z' {
        (c as u32) + 32 == (p as u32)
    } else {
        c == p
    }
}

/// Whether a desktop-session value names GNOME (case of ASCII letters
/// ignored).
pub fn mentions_gnome(value: &str) -> (r: bool)
    ensures
        r == mentions_gnome_spec(value@),
{
    proof {
        reveal_strlit("gnome");
    }
    let n = value.unicode_len();
    let ghost low = lowered(value@);
    let pattern = ['g', 'n', 'o', 'm', 'e'];
    proof {
        assert(pattern@ =~= "gnome"@);
        assert(pattern@ =~= seq!['g', 'n', 'o', 'm', 'e']);
    }
    if n < 5 {
        return false;
    }
    let mut i: usize = 0;
    while i <= n - 5
        invariant
            n == value@.len(),
            n >= 5,
            i <= n - 4,
            pattern@ == seq!['g', 'n', 'o', 'm', 'e'],
            low == lowered(value@),
            pattern@ == "gnome"@,
            forall|j: int| 0 <= j < i && j + 5 <= n ==> #[trigger] low.subrange(j, j + 5) != "gnome"@,
        decreases n - i,
    {
        let mut k: usize = 0;
        let mut all = true;
        while k < 5
            invariant
                k <= 5,
                i + 5 <= n,
                n == value@.len(),
                low == lowered(value@),
                pattern@ == "gnome"@,
                pattern@ == seq!['g', 'n', 'o', 'm', 'e'],
                all == (forall|m: int| 0 <= m < k ==> low[i + m] == pattern@[m]),
            decreases 5 - k,
        {
            if !lower_matches(value.get_char(i + k), pattern[k]) {
                all = false;
            }
            k = k + 1;
        }
        if all {
            proof {
                assert(low.subrange(i as int, i + 5) =~= "gnome"@);
            }
            return true;
        }
        proof {
            assert(low.subrange(i as int, i + 5) != "gnome"@) by {
                let m = choose|m: int| 0 <= m < 5 && low[i + m] != pattern@[m];
                assert(low.subrange(i as int, i + 5)[m] == low[i + m]);
            }
        }
        i = i + 1;
    }
    false
}

} // verus!
