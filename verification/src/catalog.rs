//! The screen-catalog capture harness's plan: every screen in every
//! variant, one PNG each, variants outermost because switching a theme or
//! text scale is process-wide.

use vstd::prelude::*;
use vstd::string::*;

use crate::fonts::{join, path_join};
use crate::text::{joined, same_text};

verus! {

/// The looks each screen is captured in.
#[derive(Clone, Copy, Debug, PartialEq, Eq, Structural)]
pub enum CatalogVariant {
    /// The default theme.
    Default,
    /// The first bundled light theme.
    Light,
    /// The default theme at a larger text scale.
    LargeText,
}

/// The variants in capture order.
pub open spec fn variant_at(i: int) -> CatalogVariant {
    if i == 0 {
        CatalogVariant::Default
    } else if i == 1 {
        CatalogVariant::Light
    } else {
        CatalogVariant::LargeText
    }
}

/// The file-name suffix of each variant.
pub open spec fn variant_suffix(v: CatalogVariant) -> Seq<char> {
    match v {
        CatalogVariant::Default => ".png"@,
        CatalogVariant::Light => ".light.png"@,
        CatalogVariant::LargeText => ".large.png"@,
    }
}

/// All variants, in capture order.
pub fn catalog_variants() -> (all: Vec<CatalogVariant>)
    ensures
        all@ == seq![variant_at(0), variant_at(1), variant_at(2)],
{
    let all = vec![CatalogVariant::Default, CatalogVariant::Light, CatalogVariant::LargeText];
    assert(all@ =~= seq![variant_at(0), variant_at(1), variant_at(2)]);
    all
}

impl CatalogVariant {
    /// The PNG a screen is written to in this variant: its code id, then
    /// `.png`, `.light.png` or `.large.png`.
    pub fn file_name(self, code_id: &str) -> (name: String)
        ensures
            name@ == code_id@ + variant_suffix(self),
    {
        proof {
            reveal_strlit(".png");
            reveal_strlit(".light.png");
            reveal_strlit(".large.png");
        }
        match self {
            CatalogVariant::Default => joined(code_id, ".png"),
            CatalogVariant::Light => joined(code_id, ".light.png"),
            CatalogVariant::LargeText => joined(code_id, ".large.png"),
        }
    }

    /// Which bundled theme the variant is drawn in, given which bundled
    /// themes are light: the first light one for the light variant, `None`
    /// (the default theme) otherwise or when no bundled theme is light.
    pub fn theme_index(self, light: &Vec<bool>) -> (index: Option<usize>)
        ensures
            self != CatalogVariant::Light ==> index is None,
            self == CatalogVariant::Light ==> match index {
                Some(i) => i < light@.len() && light@[i as int] && forall|j: int|
                    0 <= j < i ==> !#[trigger] light@[j],
                None => forall|j: int| 0 <= j < light@.len() ==> !#[trigger] light@[j],
            },
    {
        match self {
            CatalogVariant::Light => {
                let n = light.len();
                let mut i: usize = 0;
                while i < n
                    invariant
                        self == CatalogVariant::Light,
                        n == light@.len(),
                        i <= n,
                        forall|j: int| 0 <= j < i ==> !#[trigger] light@[j],
                    decreases n - i,
                {
                    if light[i] {
                        return Some(i);
                    }
                    i = i + 1;
                }
                None
            },
            _ => None,
        }
    }
}

/// One capture as plain values: the variant, the screen's position in the
/// catalog, and the PNG path.
pub open spec fn job_view(job: (CatalogVariant, usize, String)) -> (CatalogVariant, usize, Seq<char>) {
    (job.0, job.1, job.2@)
}

/// Capture `s` of pass `v`: screen `s` in variant `v`, written to the
/// variant's file name for the screen under the output directory.
pub open spec fn planned_job(out_dir: Seq<char>, code_ids: Seq<Seq<char>>, v: int, s: int) -> (
    CatalogVariant,
    usize,
    Seq<char>,
) {
    (variant_at(v), s as usize, path_join(out_dir, code_ids[s] + variant_suffix(variant_at(v))))
}

/// Every screen in every variant, variants outermost: job `v * n + s`
/// captures screen `s` (whose code id is `code_ids[s]`) in variant `v`,
/// written to that variant's file under `out_dir`.
pub fn plan_catalog_jobs(out_dir: &str, code_ids: &Vec<String>) -> (jobs: Vec<
    (CatalogVariant, usize, String),
>)
    requires
        code_ids@.len() * 3 <= usize::MAX,
    ensures
        jobs@.len() == 3 * code_ids@.len(),
        forall|v: int, s: int|
            0 <= v < 3 && 0 <= s < code_ids@.len() ==> #[trigger] job_view(
                jobs@[v * code_ids@.len() + s],
            ) == planned_job(out_dir@, code_ids@.map_values(|c: String| c@), v, s),
{
    let ghost ids = code_ids@.map_values(|c: String| c@);
    let variants = catalog_variants();
    let mut jobs: Vec<(CatalogVariant, usize, String)> = Vec::new();
    let n = code_ids.len();
    let mut v: usize = 0;
    while v < 3
        invariant
            variants@ == seq![variant_at(0), variant_at(1), variant_at(2)],
            n == code_ids@.len(),
            ids == code_ids@.map_values(|c: String| c@),
            n * 3 <= usize::MAX,
            v <= 3,
            jobs@.len() == v * n,
            forall|w: int, t: int|
                0 <= w < v && 0 <= t < n ==> #[trigger] job_view(jobs@[w * n + t]) == planned_job(
                    out_dir@,
                    ids,
                    w,
                    t,
                ),
        decreases 3 - v,
    {
        let variant = variants[v];
        let mut s: usize = 0;
        while s < n
            invariant
                variant == variant_at(v as int),
                n == code_ids@.len(),
                ids == code_ids@.map_values(|c: String| c@),
                n * 3 <= usize::MAX,
                v < 3,
                s <= n,
                jobs@.len() == v * n + s,
                forall|w: int, t: int|
                    0 <= w < v && 0 <= t < n ==> #[trigger] job_view(jobs@[w * n + t])
                        == planned_job(out_dir@, ids, w, t),
                forall|t: int|
                    0 <= t < s ==> #[trigger] job_view(jobs@[v * n + t]) == planned_job(
                        out_dir@,
                        ids,
                        v as int,
                        t,
                    ),
            decreases n - s,
        {
            proof {
                assert(v * n + s < 3 * n) by (nonlinear_arith)
                    requires
                        v < 3,
                        s < n,
                ;
            }
            let name = variant.file_name(code_ids[s].as_str());
            let path = join(out_dir, name.as_str());
            assert(ids[s as int] == code_ids@[s as int]@);
            let ghost before = jobs@;
            jobs.push((variant, s, path));
            proof {
                assert forall|w: int, t: int| 0 <= w < v && 0 <= t < n implies #[trigger] job_view(
                    jobs@[w * n + t],
                ) == planned_job(out_dir@, ids, w, t) by {
                    assert(w * n + t < v * n) by (nonlinear_arith)
                        requires
                            w < v,
                            t < n,
                    ;
                    assert(jobs@[w * n + t] == before[w * n + t]);
                }
                assert forall|t: int| 0 <= t < s + 1 implies #[trigger] job_view(jobs@[v * n + t])
                    == planned_job(out_dir@, ids, v as int, t) by {
                    if t < s {
                        assert(jobs@[v * n + t] == before[v * n + t]);
                    }
                }
            }
            s = s + 1;
        }
        proof {
            assert((v + 1) * n == v * n + n) by (nonlinear_arith);
            assert forall|w: int, t: int| 0 <= w < v + 1 && 0 <= t < n implies #[trigger] job_view(
                jobs@[w * n + t],
            ) == planned_job(out_dir@, ids, w, t) by {
                if w == v {
                    assert(job_view(jobs@[v * n + t]) == planned_job(out_dir@, ids, v as int, t));
                }
            }
        }
        v = v + 1;
    }
    jobs
}

/// A capture waits until the window has produced this many frames: before
/// that, the window's paintable mirrors a blank surface.
pub const FRAMES_BEFORE_CAPTURE: u32 = 4;

/// Whether a capture is due once the window has produced `frames` frames.
pub fn capture_due(frames: u32) -> (due: bool)
    ensures
        due == (frames >= FRAMES_BEFORE_CAPTURE),
{
    frames >= FRAMES_BEFORE_CAPTURE
}

/// The fixture harness keeps its window open for an accessibility reader,
/// instead of capturing, when the output argument is `--keep-open`.
pub fn keeps_window_open(out_arg: &str) -> (keep: bool)
    ensures
        keep == (out_arg@ == "--keep-open"@),
{
    same_text(out_arg, "--keep-open")
}

} // verus!
