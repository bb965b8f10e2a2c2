use vstd::prelude::*;
use crate::capabilities::keys_unique;
use crate::text::{lines, second_word, second_word_of, split_lines, str_eq, trim, trim_str, views};

verus! {

/// A hardware acceleration method that ffmpeg may offer.
#[derive(Debug, Clone, Copy, PartialEq, Eq, Structural)]
pub enum KnownHardwareAccel {
    Cuda,
    Qsv,
    Vaapi,
    VideoToolbox,
    Vulkan,
    Opencl,
    Rkmpp,
}

impl KnownHardwareAccel {
    pub open spec fn spec_name(self) -> Seq<char> {
        match self {
            KnownHardwareAccel::Cuda => "cuda"@,
            KnownHardwareAccel::Qsv => "qsv"@,
            KnownHardwareAccel::Vaapi => "vaapi"@,
            KnownHardwareAccel::VideoToolbox => "videotoolbox"@,
            KnownHardwareAccel::Vulkan => "vulkan"@,
            KnownHardwareAccel::Opencl => "opencl"@,
            KnownHardwareAccel::Rkmpp => "rkmpp"@,
        }
    }

    /// The name ffmpeg lists it under.
    pub fn name(&self) -> (r: &'static str)
        ensures
            r@ == self.spec_name(),
    {
        match self {
            KnownHardwareAccel::Cuda => "cuda",
            KnownHardwareAccel::Qsv => "qsv",
            KnownHardwareAccel::Vaapi => "vaapi",
            KnownHardwareAccel::VideoToolbox => "videotoolbox",
            KnownHardwareAccel::Vulkan => "vulkan",
            KnownHardwareAccel::Opencl => "opencl",
            KnownHardwareAccel::Rkmpp => "rkmpp",
        }
    }

    pub open spec fn spec_all() -> Seq<KnownHardwareAccel> {
        seq![KnownHardwareAccel::Cuda, KnownHardwareAccel::Qsv, KnownHardwareAccel::Vaapi, KnownHardwareAccel::VideoToolbox, KnownHardwareAccel::Vulkan, KnownHardwareAccel::Opencl, KnownHardwareAccel::Rkmpp]
    }

    pub proof fn lemma_all_contains(x: KnownHardwareAccel)
        ensures
            Self::spec_all().contains(x),
    {
        match x {
            KnownHardwareAccel::Cuda => assert(Self::spec_all()[0] == x),
            KnownHardwareAccel::Qsv => assert(Self::spec_all()[1] == x),
            KnownHardwareAccel::Vaapi => assert(Self::spec_all()[2] == x),
            KnownHardwareAccel::VideoToolbox => assert(Self::spec_all()[3] == x),
            KnownHardwareAccel::Vulkan => assert(Self::spec_all()[4] == x),
            KnownHardwareAccel::Opencl => assert(Self::spec_all()[5] == x),
            KnownHardwareAccel::Rkmpp => assert(Self::spec_all()[6] == x),
        }
    }

    /// Every variant, in declaration order.
    pub fn all() -> (r: Vec<KnownHardwareAccel>)
        ensures
            r@ == Self::spec_all(),
    {
        let r = vec![KnownHardwareAccel::Cuda, KnownHardwareAccel::Qsv, KnownHardwareAccel::Vaapi, KnownHardwareAccel::VideoToolbox, KnownHardwareAccel::Vulkan, KnownHardwareAccel::Opencl, KnownHardwareAccel::Rkmpp];
        assert(r@ =~= Self::spec_all());
        r
    }

    /// The variant with the given name.
    pub fn from_name(s: &str) -> (r: Option<KnownHardwareAccel>)
        ensures
            match r {
                Some(x) => x.spec_name() == s@,
                None => forall|x: KnownHardwareAccel| #[trigger] x.spec_name() != s@,
            },
    {
        let all = Self::all();
        let mut i: usize = 0;
        while i < all.len()
            invariant
                all@ == Self::spec_all(),
                i <= all.len(),
                forall|j: int| 0 <= j < i ==> all@[j].spec_name() != s@,
            decreases all.len() - i,
        {
            if str_eq(all[i].name(), s) {
                return Some(all[i]);
            }
            i = i + 1;
        }
        proof {
            assert forall|x: KnownHardwareAccel| #[trigger] x.spec_name() != s@ by {
                Self::lemma_all_contains(x);
                let j = choose|j: int| 0 <= j < all@.len() && all@[j] == x;
            }
        }
        None
    }
}

/// A video filter that ffmpeg may offer.
#[derive(Debug, Clone, Copy, PartialEq, Eq, Structural)]
pub enum KnownVideoFilter {
    Bwdif,
    BwdifCuda,
    DeinterlaceQsv,
    DeinterlaceVaapi,
    LibPlacebo,
    OverlayCuda,
    OverlayVaapi,
    PadCuda,
    PadOpencl,
    PadVaapi,
    ScaleCuda,
    ScaleRkrga,
    ScaleVaapi,
    ScaleVt,
    ScaleVulkan,
    TonemapOpencl,
    TonemapVaapi,
    VppQsv,
    W3fdif,
    Yadif,
    YadifCuda,
}

impl KnownVideoFilter {
    pub open spec fn spec_name(self) -> Seq<char> {
        match self {
            KnownVideoFilter::Bwdif => "bwdif"@,
            KnownVideoFilter::BwdifCuda => "bwdif_cuda"@,
            KnownVideoFilter::DeinterlaceQsv => "deinterlace_qsv"@,
            KnownVideoFilter::DeinterlaceVaapi => "deinterlace_vaapi"@,
            KnownVideoFilter::LibPlacebo => "libplacebo"@,
            KnownVideoFilter::OverlayCuda => "overlay_cuda"@,
            KnownVideoFilter::OverlayVaapi => "overlay_vaapi"@,
            KnownVideoFilter::PadCuda => "pad_cuda"@,
            KnownVideoFilter::PadOpencl => "pad_opencl"@,
            KnownVideoFilter::PadVaapi => "pad_vaapi"@,
            KnownVideoFilter::ScaleCuda => "scale_cuda"@,
            KnownVideoFilter::ScaleRkrga => "scale_rkrga"@,
            KnownVideoFilter::ScaleVaapi => "scale_vaapi"@,
            KnownVideoFilter::ScaleVt => "scale_vt"@,
            KnownVideoFilter::ScaleVulkan => "scale_vulkan"@,
            KnownVideoFilter::TonemapOpencl => "tonemap_opencl"@,
            KnownVideoFilter::TonemapVaapi => "tonemap_vaapi"@,
            KnownVideoFilter::VppQsv => "vpp_qsv"@,
            KnownVideoFilter::W3fdif => "w3fdif"@,
            KnownVideoFilter::Yadif => "yadif"@,
            KnownVideoFilter::YadifCuda => "yadif_cuda"@,
        }
    }

    /// The name ffmpeg lists it under.
    pub fn name(&self) -> (r: &'static str)
        ensures
            r@ == self.spec_name(),
    {
        match self {
            KnownVideoFilter::Bwdif => "bwdif",
            KnownVideoFilter::BwdifCuda => "bwdif_cuda",
            KnownVideoFilter::DeinterlaceQsv => "deinterlace_qsv",
            KnownVideoFilter::DeinterlaceVaapi => "deinterlace_vaapi",
            KnownVideoFilter::LibPlacebo => "libplacebo",
            KnownVideoFilter::OverlayCuda => "overlay_cuda",
            KnownVideoFilter::OverlayVaapi => "overlay_vaapi",
            KnownVideoFilter::PadCuda => "pad_cuda",
            KnownVideoFilter::PadOpencl => "pad_opencl",
            KnownVideoFilter::PadVaapi => "pad_vaapi",
            KnownVideoFilter::ScaleCuda => "scale_cuda",
            KnownVideoFilter::ScaleRkrga => "scale_rkrga",
            KnownVideoFilter::ScaleVaapi => "scale_vaapi",
            KnownVideoFilter::ScaleVt => "scale_vt",
            KnownVideoFilter::ScaleVulkan => "scale_vulkan",
            KnownVideoFilter::TonemapOpencl => "tonemap_opencl",
            KnownVideoFilter::TonemapVaapi => "tonemap_vaapi",
            KnownVideoFilter::VppQsv => "vpp_qsv",
            KnownVideoFilter::W3fdif => "w3fdif",
            KnownVideoFilter::Yadif => "yadif",
            KnownVideoFilter::YadifCuda => "yadif_cuda",
        }
    }

    pub open spec fn spec_all() -> Seq<KnownVideoFilter> {
        seq![KnownVideoFilter::Bwdif, KnownVideoFilter::BwdifCuda, KnownVideoFilter::DeinterlaceQsv, KnownVideoFilter::DeinterlaceVaapi, KnownVideoFilter::LibPlacebo, KnownVideoFilter::OverlayCuda, KnownVideoFilter::OverlayVaapi, KnownVideoFilter::PadCuda, KnownVideoFilter::PadOpencl, KnownVideoFilter::PadVaapi, KnownVideoFilter::ScaleCuda, KnownVideoFilter::ScaleRkrga, KnownVideoFilter::ScaleVaapi, KnownVideoFilter::ScaleVt, KnownVideoFilter::ScaleVulkan, KnownVideoFilter::TonemapOpencl, KnownVideoFilter::TonemapVaapi, KnownVideoFilter::VppQsv, KnownVideoFilter::W3fdif, KnownVideoFilter::Yadif, KnownVideoFilter::YadifCuda]
    }

    pub proof fn lemma_all_contains(x: KnownVideoFilter)
        ensures
            Self::spec_all().contains(x),
    {
        match x {
            KnownVideoFilter::Bwdif => assert(Self::spec_all()[0] == x),
            KnownVideoFilter::BwdifCuda => assert(Self::spec_all()[1] == x),
            KnownVideoFilter::DeinterlaceQsv => assert(Self::spec_all()[2] == x),
            KnownVideoFilter::DeinterlaceVaapi => assert(Self::spec_all()[3] == x),
            KnownVideoFilter::LibPlacebo => assert(Self::spec_all()[4] == x),
            KnownVideoFilter::OverlayCuda => assert(Self::spec_all()[5] == x),
            KnownVideoFilter::OverlayVaapi => assert(Self::spec_all()[6] == x),
            KnownVideoFilter::PadCuda => assert(Self::spec_all()[7] == x),
            KnownVideoFilter::PadOpencl => assert(Self::spec_all()[8] == x),
            KnownVideoFilter::PadVaapi => assert(Self::spec_all()[9] == x),
            KnownVideoFilter::ScaleCuda => assert(Self::spec_all()[10] == x),
            KnownVideoFilter::ScaleRkrga => assert(Self::spec_all()[11] == x),
            KnownVideoFilter::ScaleVaapi => assert(Self::spec_all()[12] == x),
            KnownVideoFilter::ScaleVt => assert(Self::spec_all()[13] == x),
            KnownVideoFilter::ScaleVulkan => assert(Self::spec_all()[14] == x),
            KnownVideoFilter::TonemapOpencl => assert(Self::spec_all()[15] == x),
            KnownVideoFilter::TonemapVaapi => assert(Self::spec_all()[16] == x),
            KnownVideoFilter::VppQsv => assert(Self::spec_all()[17] == x),
            KnownVideoFilter::W3fdif => assert(Self::spec_all()[18] == x),
            KnownVideoFilter::Yadif => assert(Self::spec_all()[19] == x),
            KnownVideoFilter::YadifCuda => assert(Self::spec_all()[20] == x),
        }
    }

    /// Every variant, in declaration order.
    pub fn all() -> (r: Vec<KnownVideoFilter>)
        ensures
            r@ == Self::spec_all(),
    {
        let r = vec![KnownVideoFilter::Bwdif, KnownVideoFilter::BwdifCuda, KnownVideoFilter::DeinterlaceQsv, KnownVideoFilter::DeinterlaceVaapi, KnownVideoFilter::LibPlacebo, KnownVideoFilter::OverlayCuda, KnownVideoFilter::OverlayVaapi, KnownVideoFilter::PadCuda, KnownVideoFilter::PadOpencl, KnownVideoFilter::PadVaapi, KnownVideoFilter::ScaleCuda, KnownVideoFilter::ScaleRkrga, KnownVideoFilter::ScaleVaapi, KnownVideoFilter::ScaleVt, KnownVideoFilter::ScaleVulkan, KnownVideoFilter::TonemapOpencl, KnownVideoFilter::TonemapVaapi, KnownVideoFilter::VppQsv, KnownVideoFilter::W3fdif, KnownVideoFilter::Yadif, KnownVideoFilter::YadifCuda];
        assert(r@ =~= Self::spec_all());
        r
    }

    /// The variant with the given name.
    pub fn from_name(s: &str) -> (r: Option<KnownVideoFilter>)
        ensures
            match r {
                Some(x) => x.spec_name() == s@,
                None => forall|x: KnownVideoFilter| #[trigger] x.spec_name() != s@,
            },
    {
        let all = Self::all();
        let mut i: usize = 0;
        while i < all.len()
            invariant
                all@ == Self::spec_all(),
                i <= all.len(),
                forall|j: int| 0 <= j < i ==> all@[j].spec_name() != s@,
            decreases all.len() - i,
        {
            if str_eq(all[i].name(), s) {
                return Some(all[i]);
            }
            i = i + 1;
        }
        proof {
            assert forall|x: KnownVideoFilter| #[trigger] x.spec_name() != s@ by {
                Self::lemma_all_contains(x);
                let j = choose|j: int| 0 <= j < all@.len() && all@[j] == x;
            }
        }
        None
    }
}

/// What the ffmpeg build at hand supports.
pub struct FfmpegInfo {
    /// The hardware acceleration methods ffmpeg lists.
    pub hwaccels: Vec<KnownHardwareAccel>,
    /// The known video filters ffmpeg lists and that are not disabled.
    pub video_filters: Vec<KnownVideoFilter>,
    /// Preference ranks: a lower rank is preferred; for a filter listed more than
    /// once, the last entry counts.
    pub preferred_filters: Vec<(KnownVideoFilter, usize)>,
}

/// The rank of `f` among `prefs`: the rank of its last entry, or `usize::MAX`.
pub open spec fn rank_in(prefs: Seq<(KnownVideoFilter, usize)>, f: KnownVideoFilter) -> usize
    decreases prefs.len(),
{
    if prefs.len() == 0 {
        usize::MAX
    } else if prefs.last().0 == f {
        prefs.last().1
    } else {
        rank_in(prefs.drop_last(), f)
    }
}

impl FfmpegInfo {
    /// Each method and each filter is listed once, and each filter has one rank.
    pub open spec fn wf(&self) -> bool {
        self.hwaccels@.no_duplicates() && self.video_filters@.no_duplicates() && keys_unique(self.preferred_filters@)
    }

    /// Information on an ffmpeg with nothing.
    pub fn default() -> (r: FfmpegInfo)
        ensures
            r.wf(),
            r.hwaccels@.len() == 0,
            r.video_filters@.len() == 0,
            r.preferred_filters@.len() == 0,
    {
        FfmpegInfo { hwaccels: Vec::new(), video_filters: Vec::new(), preferred_filters: Vec::new() }
    }

    /// A copy of the information.
    pub fn duplicate(&self) -> (r: FfmpegInfo)
        ensures
            r.hwaccels@ == self.hwaccels@,
            r.video_filters@ == self.video_filters@,
            r.preferred_filters@ == self.preferred_filters@,
    {
        let mut prefs: Vec<(KnownVideoFilter, usize)> = Vec::new();
        let mut i: usize = 0;
        while i < self.preferred_filters.len()
            invariant
                i <= self.preferred_filters.len(),
                prefs@ == self.preferred_filters@.take(i as int),
            decreases self.preferred_filters.len() - i,
        {
            let (f, k) = self.preferred_filters[i];
            prefs.push((f, k));
            assert(self.preferred_filters@.take(i as int + 1) =~= self.preferred_filters@.take(i as int).push((f, k)));
            i = i + 1;
        }
        assert(self.preferred_filters@.take(i as int) =~= self.preferred_filters@);
        let r = FfmpegInfo {
            hwaccels: self.hwaccels.clone(),
            video_filters: self.video_filters.clone(),
            preferred_filters: prefs,
        };
        assert(r.hwaccels@ =~= self.hwaccels@);
        assert(r.video_filters@ =~= self.video_filters@);
        r
    }

    pub open spec fn spec_has_hw_accel(&self, a: KnownHardwareAccel) -> bool {
        self.hwaccels@.contains(a)
    }

    pub open spec fn spec_has_video_filter(&self, f: KnownVideoFilter) -> bool {
        self.video_filters@.contains(f)
    }

    pub open spec fn spec_rank(&self, f: KnownVideoFilter) -> usize {
        rank_in(self.preferred_filters@, f)
    }

    /// Whether ffmpeg offers the acceleration method.
    pub fn has_hw_accel(&self, hw_accel: &KnownHardwareAccel) -> (r: bool)
        ensures
            r == self.spec_has_hw_accel(*hw_accel),
    {
        let mut i: usize = 0;
        while i < self.hwaccels.len()
            invariant
                i <= self.hwaccels.len(),
                forall|j: int| 0 <= j < i ==> self.hwaccels@[j] != *hw_accel,
            decreases self.hwaccels.len() - i,
        {
            if self.hwaccels[i] == *hw_accel {
                assert(self.hwaccels@.contains(*hw_accel));
                return true;
            }
            i = i + 1;
        }
        false
    }

    /// Whether ffmpeg offers the filter.
    pub fn has_video_filter(&self, filter: &KnownVideoFilter) -> (r: bool)
        ensures
            r == self.spec_has_video_filter(*filter),
    {
        let mut i: usize = 0;
        while i < self.video_filters.len()
            invariant
                i <= self.video_filters.len(),
                forall|j: int| 0 <= j < i ==> self.video_filters@[j] != *filter,
            decreases self.video_filters.len() - i,
        {
            if self.video_filters[i] == *filter {
                assert(self.video_filters@.contains(*filter));
                return true;
            }
            i = i + 1;
        }
        false
    }

    /// The preference rank of a filter: lower is preferred, `usize::MAX` for an
    /// unranked filter.
    pub fn preference_position(&self, filter: &KnownVideoFilter) -> (r: usize)
        ensures
            r == self.spec_rank(*filter),
    {
        let mut i: usize = self.preferred_filters.len();
        assert(self.preferred_filters@.take(i as int) =~= self.preferred_filters@);
        while i > 0
            invariant
                i <= self.preferred_filters.len(),
                rank_in(self.preferred_filters@.take(i as int), *filter) == self.spec_rank(*filter),
            decreases i,
        {
            assert(self.preferred_filters@.take(i as int).drop_last() =~= self.preferred_filters@.take(i as int - 1));
            if self.preferred_filters[i - 1].0 == *filter {
                return self.preferred_filters[i - 1].1;
            }
            i = i - 1;
        }
        assert(self.preferred_filters@.take(self.preferred_filters.len() as int) =~= self.preferred_filters@);
        usize::MAX
    }

    /// Whether `opts[i]` is the best fit among `opts`: offered by ffmpeg, of the
    /// lowest rank among the offered ones, and the first of that rank.
    pub open spec fn is_best_fit(&self, opts: Seq<KnownVideoFilter>, i: int) -> bool {
        &&& 0 <= i < opts.len()
        &&& self.spec_has_video_filter(opts[i])
        &&& forall|j: int| 0 <= j < opts.len() && self.spec_has_video_filter(#[trigger] opts[j])
            ==> self.spec_rank(opts[i]) <= self.spec_rank(opts[j])
        &&& forall|j: int| 0 <= j < i && self.spec_has_video_filter(#[trigger] opts[j])
            ==> self.spec_rank(opts[i]) < self.spec_rank(opts[j])
    }

    /// The best fit among the options (see `is_best_fit`); None when ffmpeg offers none of them.
    pub open spec fn spec_best_fit(&self, opts: Seq<KnownVideoFilter>) -> Option<KnownVideoFilter> {
        if exists|i: int| self.is_best_fit(opts, i) {
            Some(opts[choose|i: int| self.is_best_fit(opts, i)])
        } else {
            None
        }
    }

    proof fn lemma_best_fit_unique(&self, opts: Seq<KnownVideoFilter>, i: int, k: int)
        requires
            self.is_best_fit(opts, i),
            self.is_best_fit(opts, k),
        ensures
            i == k,
    {
        if i < k {
            assert(self.spec_has_video_filter(opts[i]));
        } else if k < i {
            assert(self.spec_has_video_filter(opts[k]));
        }
    }

    /// Returns the "best" offered filter among the options: the one with the lowest
    /// preference rank; among equal ranks (e.g. all unranked), the first listed.
    pub fn find_best_fit(&self, filter_options: &[KnownVideoFilter]) -> (r: Option<KnownVideoFilter>)
        ensures
            r == self.spec_best_fit(filter_options@),
            r.is_none() <==> forall|j: int| 0 <= j < filter_options@.len()
                ==> !self.spec_has_video_filter(#[trigger] filter_options@[j]),
    {
        let ghost opts = filter_options@;
        let mut best: Option<usize> = None;
        let mut i: usize = 0;
        while i < filter_options.len()
            invariant
                opts == filter_options@,
                i <= opts.len(),
                match best {
                    Some(b) => self.is_best_fit(opts.take(i as int), b as int),
                    None => forall|j: int| 0 <= j < i ==> !self.spec_has_video_filter(#[trigger] opts[j]),
                },
            decreases opts.len() - i,
        {
            let f = filter_options[i];
            let ghost prev = opts.take(i as int);
            let ghost next = opts.take(i as int + 1);
            assert(next == prev.push(f));
            if self.has_video_filter(&f) {
                match best {
                    None => {
                        best = Some(i);
                        assert(self.is_best_fit(next, i as int));
                    },
                    Some(b) => {
                        if self.preference_position(&f) < self.preference_position(&filter_options[b]) {
                            best = Some(i);
                            assert forall|j: int| 0 <= j < next.len() && self.spec_has_video_filter(#[trigger] next[j])
                                implies self.spec_rank(next[i as int]) <= self.spec_rank(next[j]) by {
                                if j < i {
                                    assert(next[j] == prev[j]);
                                }
                            }
                            assert forall|j: int| 0 <= j < i && self.spec_has_video_filter(#[trigger] next[j])
                                implies self.spec_rank(next[i as int]) < self.spec_rank(next[j]) by {
                                assert(next[j] == prev[j]);
                            }
                            assert(self.is_best_fit(next, i as int));
                        } else {
                            assert forall|j: int| 0 <= j < next.len() && self.spec_has_video_filter(#[trigger] next[j])
                                implies self.spec_rank(next[b as int]) <= self.spec_rank(next[j]) by {
                                if j < i {
                                    assert(next[j] == prev[j]);
                                }
                            }
                            assert forall|j: int| 0 <= j < b && self.spec_has_video_filter(#[trigger] next[j])
                                implies self.spec_rank(next[b as int]) < self.spec_rank(next[j]) by {
                                assert(next[j] == prev[j]);
                            }
                            assert(self.is_best_fit(next, b as int));
                        }
                    },
                }
            } else {
                match best {
                    None => {},
                    Some(b) => {
                        assert forall|j: int| 0 <= j < next.len() && self.spec_has_video_filter(#[trigger] next[j])
                            implies self.spec_rank(next[b as int]) <= self.spec_rank(next[j]) by {
                            if j < i {
                                assert(next[j] == prev[j]);
                            }
                        }
                        assert forall|j: int| 0 <= j < b && self.spec_has_video_filter(#[trigger] next[j])
                            implies self.spec_rank(next[b as int]) < self.spec_rank(next[j]) by {
                            assert(next[j] == prev[j]);
                        }
                        assert(self.is_best_fit(next, b as int));
                    },
                }
            }
            i = i + 1;
        }
        assert(opts.take(opts.len() as int) =~= opts);
        match best {
            Some(b) => {
                proof {
                    let c = choose|k: int| self.is_best_fit(opts, k);
                    self.lemma_best_fit_unique(opts, b as int, c);
                }
                Some(filter_options[b])
            },
            None => {
                proof {
                    if exists|k: int| self.is_best_fit(opts, k) {
                        let c = choose|k: int| self.is_best_fit(opts, k);
                        assert(self.spec_has_video_filter(opts[c]));
                    }
                }
                None
            },
        }
    }
}

/// The acceleration methods listed in the output of `ffmpeg -hwaccels`: the lines
/// that, trimmed, are the name of a known method.
pub open spec fn listed_hw_accels(stdout: Seq<char>) -> Set<KnownHardwareAccel> {
    Set::new(|a: KnownHardwareAccel| exists|i: int| 0 <= i < split_lines(stdout).len()
        && trim(#[trigger] split_lines(stdout)[i]) == a.spec_name())
}

/// The filters listed in the output of `ffmpeg -filters`: the known filters named
/// by the second word of a line, less the disabled ones.
pub open spec fn listed_video_filters(stdout: Seq<char>, disabled: Seq<Seq<char>>) -> Set<KnownVideoFilter> {
    Set::new(|f: KnownVideoFilter| (exists|i: int| 0 <= i < split_lines(stdout).len()
        && second_word(#[trigger] split_lines(stdout)[i]) == Some(f.spec_name()))
        && !disabled.contains(f.spec_name()))
}

fn contains_name(list: &Vec<String>, name: &str) -> (r: bool)
    ensures
        r == views(list@).contains(name@),
{
    let mut i: usize = 0;
    while i < list.len()
        invariant
            i <= list.len(),
            forall|j: int| 0 <= j < i ==> list@[j]@ != name@,
        decreases list.len() - i,
    {
        if str_eq(list[i].as_str(), name) {
            assert(views(list@)[i as int] == name@);
            return true;
        }
        i = i + 1;
    }
    proof {
        if views(list@).contains(name@) {
            let j = choose|j: int| 0 <= j < views(list@).len() && views(list@)[j] == name@;
            assert(list@[j]@ == name@);
        }
    }
    false
}

/// Whether some line of `ls`, trimmed, is `name`.
fn some_line_is(ls: &Vec<String>, name: &str) -> (r: bool)
    ensures
        r == exists|k: int| 0 <= k < ls@.len() && trim(#[trigger] ls@[k]@) == name@,
{
    let mut i: usize = 0;
    while i < ls.len()
        invariant
            i <= ls.len(),
            forall|k: int| 0 <= k < i ==> trim(#[trigger] ls@[k]@) != name@,
        decreases ls.len() - i,
    {
        if str_eq(trim_str(ls[i].as_str()), name) {
            return true;
        }
        i = i + 1;
    }
    false
}

/// Whether the second word of some line of `ls` is `name`.
fn some_second_word_is(ls: &Vec<String>, name: &str) -> (r: bool)
    ensures
        r == exists|k: int| 0 <= k < ls@.len() && second_word(#[trigger] ls@[k]@) == Some(name@),
{
    let mut i: usize = 0;
    while i < ls.len()
        invariant
            i <= ls.len(),
            forall|k: int| 0 <= k < i ==> second_word(#[trigger] ls@[k]@) != Some(name@),
        decreases ls.len() - i,
    {
        match second_word_of(ls[i].as_str()) {
            Some(w) => {
                if str_eq(w, name) {
                    return true;
                }
            },
            None => {},
        }
        i = i + 1;
    }
    false
}

/// Whether the method is listed.
fn lists_accel(v: &Vec<KnownHardwareAccel>, a: KnownHardwareAccel) -> (r: bool)
    ensures
        r == v@.contains(a),
{
    let mut i: usize = 0;
    while i < v.len()
        invariant
            i <= v.len(),
            forall|k: int| 0 <= k < i ==> v@[k] != a,
        decreases v.len() - i,
    {
        if v[i] == a {
            return true;
        }
        i = i + 1;
    }
    false
}

/// Whether the filter is listed.
fn lists_filter(v: &Vec<KnownVideoFilter>, f: KnownVideoFilter) -> (r: bool)
    ensures
        r == v@.contains(f),
{
    let mut i: usize = 0;
    while i < v.len()
        invariant
            i <= v.len(),
            forall|k: int| 0 <= k < i ==> v@[k] != f,
        decreases v.len() - i,
    {
        if v[i] == f {
            return true;
        }
        i = i + 1;
    }
    false
}

impl FfmpegInfo {
    /// Reads the acceleration methods from the output of `ffmpeg -hide_banner -hwaccels`.
    pub fn parse_hw_accels(stdout: &str) -> (r: Vec<KnownHardwareAccel>)
        ensures
            r@.no_duplicates(),
            r@.to_set() == listed_hw_accels(stdout@),
    {
        let ls = lines(stdout);
        let ghost sl = split_lines(stdout@);
        assert forall|k: int| 0 <= k < ls@.len() implies ls@[k]@ == sl[k] by {
            assert(views(ls@)[k] == ls@[k]@);
        }
        let all = KnownHardwareAccel::all();
        let ghost target = listed_hw_accels(stdout@);
        let mut r: Vec<KnownHardwareAccel> = Vec::new();
        let mut j: usize = 0;
        while j < all.len()
            invariant
                all@ == KnownHardwareAccel::spec_all(),
                j <= all.len(),
                ls@.len() == sl.len(),
                forall|k: int| 0 <= k < ls@.len() ==> ls@[k]@ == sl[k],
                sl == split_lines(stdout@),
                target == listed_hw_accels(stdout@),
                forall|k: int| 0 <= k < r@.len() ==> target.contains(#[trigger] r@[k]),
                forall|k: int| 0 <= k < j && target.contains(#[trigger] all@[k]) ==> r@.contains(all@[k]),
                r@.no_duplicates(),
            decreases all.len() - j,
        {
            let a = all[j];
            let found = some_line_is(&ls, a.name());
            proof {
                assert(found == target.contains(a)) by {
                    if found {
                        let k = choose|k: int| 0 <= k < ls@.len() && trim(#[trigger] ls@[k]@) == a.spec_name();
                        assert(trim(sl[k]) == a.spec_name());
                    }
                    if target.contains(a) {
                        let k = choose|k: int| 0 <= k < sl.len() && trim(#[trigger] sl[k]) == a.spec_name();
                        assert(trim(ls@[k]@) == a.spec_name());
                    }
                }
            }
            let ghost old_r = r@;
            if found && !lists_accel(&r, a) {
                r.push(a);
                proof {
                    assert(r@[r@.len() - 1] == a);
                    assert forall|k: int| 0 <= k < j + 1 && target.contains(#[trigger] all@[k]) implies r@.contains(all@[k]) by {
                        if k < j {
                            let m = choose|m: int| 0 <= m < old_r.len() && old_r[m] == all@[k];
                            assert(r@[m] == all@[k]);
                        }
                    }
                    crate::capabilities::lemma_with_member_unique(old_r, a);
                    assert(r@ =~= crate::capabilities::with_member(old_r, a));
                }
            } else if found {
                assert(r@.contains(a));
            }
            j = j + 1;
        }
        proof {
            assert forall|a: KnownHardwareAccel| r@.to_set().contains(a) <==> target.contains(a) by {
                KnownHardwareAccel::lemma_all_contains(a);
                if r@.to_set().contains(a) {
                    let m = choose|m: int| 0 <= m < r@.len() && r@[m] == a;
                }
                if target.contains(a) {
                    let k = choose|k: int| 0 <= k < all@.len() && all@[k] == a;
                }
            }
            assert(r@.to_set() =~= target);
        }
        r
    }

    /// Reads the known filters from the output of `ffmpeg -hide_banner -filters`,
    /// leaving out the disabled ones.
    pub fn parse_video_filters(stdout: &str, disabled_filters: &Vec<String>) -> (r: Vec<KnownVideoFilter>)
        ensures
            r@.no_duplicates(),
            r@.to_set() == listed_video_filters(stdout@, views(disabled_filters@)),
    {
        let ls = lines(stdout);
        let ghost sl = split_lines(stdout@);
        let ghost target = listed_video_filters(stdout@, views(disabled_filters@));
        assert forall|k: int| 0 <= k < ls@.len() implies ls@[k]@ == sl[k] by {
            assert(views(ls@)[k] == ls@[k]@);
        }
        let all = KnownVideoFilter::all();
        let mut r: Vec<KnownVideoFilter> = Vec::new();
        let mut j: usize = 0;
        while j < all.len()
            invariant
                all@ == KnownVideoFilter::spec_all(),
                j <= all.len(),
                ls@.len() == sl.len(),
                forall|k: int| 0 <= k < ls@.len() ==> ls@[k]@ == sl[k],
                sl == split_lines(stdout@),
                target == listed_video_filters(stdout@, views(disabled_filters@)),
                forall|k: int| 0 <= k < r@.len() ==> target.contains(#[trigger] r@[k]),
                forall|k: int| 0 <= k < j && target.contains(#[trigger] all@[k]) ==> r@.contains(all@[k]),
                r@.no_duplicates(),
            decreases all.len() - j,
        {
            let a = all[j];
            let found = some_second_word_is(&ls, a.name()) && !contains_name(disabled_filters, a.name());
            proof {
                assert(found == target.contains(a)) by {
                    if some_second_word_is_spec(ls@, a.spec_name()) {
                        let k = choose|k: int| 0 <= k < ls@.len() && second_word(#[trigger] ls@[k]@) == Some(a.spec_name());
                        assert(second_word(sl[k]) == Some(a.spec_name()));
                    }
                    if target.contains(a) {
                        let k = choose|k: int| 0 <= k < sl.len() && second_word(#[trigger] sl[k]) == Some(a.spec_name());
                        assert(second_word(ls@[k]@) == Some(a.spec_name()));
                    }
                }
            }
            let ghost old_r = r@;
            if found && !lists_filter(&r, a) {
                r.push(a);
                proof {
                    assert(r@[r@.len() - 1] == a);
                    assert forall|k: int| 0 <= k < j + 1 && target.contains(#[trigger] all@[k]) implies r@.contains(all@[k]) by {
                        if k < j {
                            let m = choose|m: int| 0 <= m < old_r.len() && old_r[m] == all@[k];
                            assert(r@[m] == all@[k]);
                        }
                    }
                    crate::capabilities::lemma_with_member_unique(old_r, a);
                    assert(r@ =~= crate::capabilities::with_member(old_r, a));
                }
            } else if found {
                assert(r@.contains(a));
            }
            j = j + 1;
        }
        proof {
            assert forall|a: KnownVideoFilter| r@.to_set().contains(a) <==> target.contains(a) by {
                KnownVideoFilter::lemma_all_contains(a);
                if r@.to_set().contains(a) {
                    let m = choose|m: int| 0 <= m < r@.len() && r@[m] == a;
                }
                if target.contains(a) {
                    let k = choose|k: int| 0 <= k < all@.len() && all@[k] == a;
                }
            }
            assert(r@.to_set() =~= target);
        }
        r
    }
}

/// The rank that a preference list gives a filter that ffmpeg offers: the last
/// position of its name in the list, or `usize::MAX` when the name is not listed.
pub open spec fn listed_rank(names: Seq<Seq<char>>, name: Seq<char>) -> usize
    decreases names.len(),
{
    if names.len() == 0 {
        usize::MAX
    } else if names.last() == name {
        (names.len() - 1) as usize
    } else {
        listed_rank(names.drop_last(), name)
    }
}

/// Replacing the rank of a listed filter changes its rank and no other, and
/// keeps each filter listed once.
proof fn lemma_rank_update(p: Seq<(KnownVideoFilter, usize)>, k: int, g: KnownVideoFilter, i: usize)
    requires
        keys_unique(p),
        0 <= k < p.len(),
        p[k].0 == g,
    ensures
        keys_unique(p.update(k, (g, i))),
        forall|f: KnownVideoFilter| #[trigger] rank_in(p.update(k, (g, i)), f) == if f == g { i } else { rank_in(p, f) },
    decreases p.len(),
{
    let u = p.update(k, (g, i));
    assert forall|f: KnownVideoFilter| #[trigger] rank_in(u, f) == if f == g { i } else { rank_in(p, f) } by {
        if k == p.len() - 1 {
            assert(u.drop_last() =~= p.drop_last());
            assert(u.last() == (g, i));
            assert(p.last() == p[k]);
            assert(rank_in(u, f) == if f == g { i } else { rank_in(u.drop_last(), f) });
            assert(rank_in(p, f) == if f == g { p[k].1 } else { rank_in(p.drop_last(), f) });
        } else {
            assert(u.drop_last() =~= p.drop_last().update(k, (g, i)));
            assert(u.last() == p.last());
            assert(p[p.len() - 1].0 != p[k].0);
            assert(p.last().0 != g);
            lemma_rank_update(p.drop_last(), k, g, i);
            assert(rank_in(u, f) == if u.last().0 == f { u.last().1 } else { rank_in(u.drop_last(), f) });
            assert(rank_in(p, f) == if p.last().0 == f { p.last().1 } else { rank_in(p.drop_last(), f) });
            assert(rank_in(u.drop_last(), f) == if f == g { i } else { rank_in(p.drop_last(), f) });
        }
    }
}

/// The position of the filter's entry, if any.
fn rank_position(prefs: &Vec<(KnownVideoFilter, usize)>, g: KnownVideoFilter) -> (r: Option<usize>)
    ensures
        match r {
            Some(k) => k < prefs@.len() && prefs@[k as int].0 == g,
            None => forall|m: int| 0 <= m < prefs@.len() ==> prefs@[m].0 != g,
        },
{
    let mut i: usize = 0;
    while i < prefs.len()
        invariant
            i <= prefs.len(),
            forall|m: int| 0 <= m < i ==> prefs@[m].0 != g,
        decreases prefs.len() - i,
    {
        if prefs[i].0 == g {
            return Some(i);
        }
        i = i + 1;
    }
    None
}

impl FfmpegInfo {
    /// Gathers what ffmpeg supports from the output of `ffmpeg -hide_banner -hwaccels`
    /// and `ffmpeg -hide_banner -filters`, leaving out the disabled filters and
    /// ranking the offered filters by their last position in `preferred_filters`.
    pub fn from_ffmpeg_output(
        hwaccels_stdout: &str,
        filters_stdout: &str,
        disabled_filters: &Vec<String>,
        preferred_filters: &Vec<String>,
    ) -> (r: FfmpegInfo)
        requires
            preferred_filters@.len() < usize::MAX,
        ensures
            r.wf(),
            r.hwaccels@.to_set() == listed_hw_accels(hwaccels_stdout@),
            r.video_filters@.to_set() == listed_video_filters(filters_stdout@, views(disabled_filters@)),
            forall|f: KnownVideoFilter| #[trigger] r.spec_rank(f) == if r.spec_has_video_filter(f) {
                listed_rank(views(preferred_filters@), f.spec_name())
            } else {
                usize::MAX
            },
    {
        let hwaccels = Self::parse_hw_accels(hwaccels_stdout);
        let video_filters = Self::parse_video_filters(filters_stdout, disabled_filters);
        let info = FfmpegInfo { hwaccels, video_filters, preferred_filters: Vec::new() };
        let ghost names = views(preferred_filters@);
        let all = KnownVideoFilter::all();
        let mut prefs: Vec<(KnownVideoFilter, usize)> = Vec::new();
        let mut i: usize = 0;
        while i < preferred_filters.len()
            invariant
                i <= preferred_filters.len(),
                names == views(preferred_filters@),
                preferred_filters@.len() < usize::MAX,
                all@ == KnownVideoFilter::spec_all(),
                forall|f: KnownVideoFilter| #[trigger] rank_in(prefs@, f) == if info.spec_has_video_filter(f) {
                    listed_rank(names.take(i as int), f.spec_name())
                } else {
                    usize::MAX
                },
                keys_unique(prefs@),
                info.hwaccels@.no_duplicates(),
                info.video_filters@.no_duplicates(),
            decreases preferred_filters.len() - i,
        {
            let name = preferred_filters[i].as_str();
            let ghost before = prefs@;
            let mut j: usize = 0;
            while j < all.len()
                invariant
                    i < preferred_filters.len(),
                    name@ == names[i as int],
                    names == views(preferred_filters@),
                    all@ == KnownVideoFilter::spec_all(),
                    j <= all.len(),
                    forall|f: KnownVideoFilter| #[trigger] rank_in(prefs@, f) == if all@.take(j as int).contains(f)
                        && info.spec_has_video_filter(f) && f.spec_name() == name@ {
                        i
                    } else {
                        rank_in(before, f)
                    },
                keys_unique(prefs@),
                decreases all.len() - j,
            {
                let g = all[j];
                assert(all@.take(j as int + 1) =~= all@.take(j as int).push(g));
                let ghost p0 = prefs@;
                assert(forall|f: KnownVideoFilter| #[trigger] rank_in(p0, f) == if all@.take(j as int).contains(f)
                        && info.spec_has_video_filter(f) && f.spec_name() == name@ {
                        i
                    } else {
                        rank_in(before, f)
                    });
                let pushed = str_eq(g.name(), name) && info.has_video_filter(&g);
                if pushed {
                    match rank_position(&prefs, g) {
                        Some(k) => {
                            proof { lemma_rank_update(p0, k as int, g, i); }
                            prefs.set(k, (g, i));
                        },
                        None => {
                            prefs.push((g, i));
                            assert(prefs@.drop_last() =~= p0);
                            assert(prefs@[p0.len() as int] == (g, i));
                        },
                    }
                }
                assert(forall|f: KnownVideoFilter| #[trigger] rank_in(prefs@, f) == if pushed && f == g { i } else { rank_in(p0, f) });
                proof {
                    assert forall|f: KnownVideoFilter| #[trigger] rank_in(prefs@, f) == if all@.take(j as int + 1).contains(f)
                        && info.spec_has_video_filter(f) && f.spec_name() == name@ {
                        i
                    } else {
                        rank_in(before, f)
                    } by {
                        assert(all@.take(j as int + 1).contains(f) == (all@.take(j as int).contains(f) || f == g));
                        if all@.take(j as int).contains(f) {
                            assert(all@.take(j as int + 1).contains(f));
                        }
                        if f == g {
                            assert(all@.take(j as int + 1)[j as int] == g);
                        }
                    }
                }
                j = j + 1;
            }
            proof {
                assert(all@.take(all@.len() as int) =~= all@);
                assert(names.take(i as int + 1).drop_last() =~= names.take(i as int));
                assert forall|f: KnownVideoFilter| #[trigger] rank_in(prefs@, f) == if info.spec_has_video_filter(f) {
                    listed_rank(names.take(i as int + 1), f.spec_name())
                } else {
                    usize::MAX
                } by {
                    KnownVideoFilter::lemma_all_contains(f);
                }
            }
            i = i + 1;
        }
        assert(names.take(preferred_filters@.len() as int) =~= names);
        FfmpegInfo { hwaccels: info.hwaccels, video_filters: info.video_filters, preferred_filters: prefs }
    }
}

spec fn some_second_word_is_spec(ls: Seq<String>, name: Seq<char>) -> bool {
    exists|k: int| 0 <= k < ls.len() && second_word(#[trigger] ls[k]@) == Some(name)
}


/// Distinct KnownHardwareAccel values have distinct names, so `from_name` of a value's
/// name gives that value back.
pub proof fn law_hw_accel_names_distinct(a: KnownHardwareAccel, b: KnownHardwareAccel)
    ensures
        a.spec_name() == b.spec_name() ==> a == b,
{
    reveal_strlit("cuda");
    reveal_strlit("qsv");
    reveal_strlit("vaapi");
    reveal_strlit("videotoolbox");
    reveal_strlit("vulkan");
    reveal_strlit("opencl");
    reveal_strlit("rkmpp");
    if a.spec_name() == b.spec_name() {
        let n = a.spec_name();
        let m = b.spec_name();
        assert(n.len() == m.len());
        assert(forall|i: int| 0 <= i < n.len() ==> n[i] == m[i]);
        if n.len() > 0 {
            assert(n[0] == m[0]);
            assert(n[n.len() - 1] == m[m.len() - 1]);
        }
        if n.len() > 4 {
            assert(n[1] == m[1] && n[2] == m[2] && n[3] == m[3] && n[4] == m[4]);
        }
        if n.len() > 6 {
            assert(n[5] == m[5] && n[6] == m[6]);
        }
        if n.len() > 9 {
            assert(n[7] == m[7] && n[8] == m[8] && n[9] == m[9]);
        }
    }
}

/// Distinct KnownVideoFilter values have distinct names, so `from_name` of a value's
/// name gives that value back.
pub proof fn law_video_filter_names_distinct(a: KnownVideoFilter, b: KnownVideoFilter)
    ensures
        a.spec_name() == b.spec_name() ==> a == b,
{
    reveal_strlit("bwdif");
    reveal_strlit("bwdif_cuda");
    reveal_strlit("deinterlace_qsv");
    reveal_strlit("deinterlace_vaapi");
    reveal_strlit("libplacebo");
    reveal_strlit("overlay_cuda");
    reveal_strlit("overlay_vaapi");
    reveal_strlit("pad_cuda");
    reveal_strlit("pad_opencl");
    reveal_strlit("pad_vaapi");
    reveal_strlit("scale_cuda");
    reveal_strlit("scale_rkrga");
    reveal_strlit("scale_vaapi");
    reveal_strlit("scale_vt");
    reveal_strlit("scale_vulkan");
    reveal_strlit("tonemap_opencl");
    reveal_strlit("tonemap_vaapi");
    reveal_strlit("vpp_qsv");
    reveal_strlit("w3fdif");
    reveal_strlit("yadif");
    reveal_strlit("yadif_cuda");
    if a.spec_name() == b.spec_name() {
        let n = a.spec_name();
        let m = b.spec_name();
        assert(n.len() == m.len());
        assert(forall|i: int| 0 <= i < n.len() ==> n[i] == m[i]);
        if n.len() > 0 {
            assert(n[0] == m[0]);
            assert(n[n.len() - 1] == m[m.len() - 1]);
        }
        if n.len() > 4 {
            assert(n[1] == m[1] && n[2] == m[2] && n[3] == m[3] && n[4] == m[4]);
        }
        if n.len() > 6 {
            assert(n[5] == m[5] && n[6] == m[6]);
        }
        if n.len() > 9 {
            assert(n[7] == m[7] && n[8] == m[8] && n[9] == m[9]);
        }
    }
}

} // verus!
