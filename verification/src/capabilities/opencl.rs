use vstd::prelude::*;

verus! {

/// How many OpenCL platforms and GPU devices there are.
pub struct OpenCLCapabilities {
    pub platform_count: u32,
    pub gpu_device_count: u32,
}

/// The sum of a list of counts.
pub open spec fn sum_counts(counts: Seq<u32>) -> nat
    decreases counts.len(),
{
    if counts.len() == 0 { 0 } else { sum_counts(counts.drop_last()) + counts.last() as nat }
}

impl OpenCLCapabilities {
    /// GPU devices come only with a platform.
    pub open spec fn wf(&self) -> bool {
        self.gpu_device_count > 0 ==> self.platform_count > 0
    }

    /// Whether there is some platform and some GPU device.
    pub open spec fn spec_usable(&self) -> bool {
        self.platform_count > 0 && self.gpu_device_count > 0
    }

    /// No platform and no device.
    pub fn default() -> (r: OpenCLCapabilities)
        ensures
            r.platform_count == 0,
            r.gpu_device_count == 0,
    {
        OpenCLCapabilities { platform_count: 0, gpu_device_count: 0 }
    }

    /// Whether OpenCL tonemapping can run: some platform and some GPU device.
    pub fn can_tonemap(&self) -> (r: bool)
        ensures
            r == self.spec_usable(),
    {
        self.platform_count > 0 && self.gpu_device_count > 0
    }

    /// Whether OpenCL padding can run: some platform and some GPU device.
    pub fn can_pad(&self) -> (r: bool)
        ensures
            r == self.spec_usable(),
    {
        self.platform_count > 0 && self.gpu_device_count > 0
    }

    /// The capabilities on a platform without OpenCL: no platform, no device.
    /// Where OpenCL is there, its counts are read through the native library and
    /// turned into capabilities by `from_device_counts`.
    pub fn probe() -> (r: Result<OpenCLCapabilities, crate::error::FFPipelineError>)
        ensures
            r matches Ok(c) && c.platform_count == 0 && c.gpu_device_count == 0 && c.wf(),
    {
        Ok(OpenCLCapabilities::default())
    }

    /// The capabilities from the platform count and the GPU device count of each
    /// platform whose device query succeeded (so no more counts than platforms).
    pub fn from_device_counts(platform_count: u32, device_counts: &Vec<u32>) -> (r: OpenCLCapabilities)
        requires
            device_counts@.len() <= platform_count,
            sum_counts(device_counts@) <= u32::MAX,
        ensures
            r.wf(),
            r.platform_count == platform_count,
            r.gpu_device_count == sum_counts(device_counts@),
    {
        let mut total: u32 = 0;
        let mut i: usize = 0;
        while i < device_counts.len()
            invariant
                i <= device_counts.len(),
                sum_counts(device_counts@) <= u32::MAX,
                total == sum_counts(device_counts@.take(i as int)),
            decreases device_counts.len() - i,
        {
            assert(device_counts@.take(i as int + 1).drop_last() =~= device_counts@.take(i as int));
            proof { lemma_sum_prefix(device_counts@, i as int + 1); }
            total = total + device_counts[i];
            i = i + 1;
        }
        assert(device_counts@.take(i as int) =~= device_counts@);
        if platform_count == 0 {
            assert(device_counts@ =~= Seq::<u32>::empty());
        }
        OpenCLCapabilities { platform_count, gpu_device_count: total }
    }
}

/// A prefix sums to no more than the whole.
pub proof fn lemma_sum_prefix(counts: Seq<u32>, n: int)
    requires
        0 <= n <= counts.len(),
    ensures
        sum_counts(counts.take(n)) <= sum_counts(counts),
    decreases counts.len(),
{
    if n < counts.len() {
        assert(counts.drop_last().take(n) =~= counts.take(n));
        lemma_sum_prefix(counts.drop_last(), n);
    } else {
        assert(counts.take(n) =~= counts);
    }
}

} // verus!
