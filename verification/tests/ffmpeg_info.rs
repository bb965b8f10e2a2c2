use ffpipeline::ffmpeg_info::{FfmpegInfo, KnownVideoFilter};

#[test]
fn test_best_fit_no_preference_select_first() {
    let info = FfmpegInfo {
        hwaccels: Vec::new(),
        video_filters: vec![KnownVideoFilter::TonemapOpencl, KnownVideoFilter::TonemapVaapi],
        preferred_filters: Vec::new(),
    };
    let best_fit = info.find_best_fit([KnownVideoFilter::TonemapOpencl, KnownVideoFilter::TonemapVaapi].as_ref());
    assert!(info.has_video_filter(&KnownVideoFilter::TonemapOpencl));
    assert_eq!(best_fit, Some(KnownVideoFilter::TonemapOpencl));
}

#[test]
fn test_best_fit_preference_select_by_preference() {
    let info = FfmpegInfo {
        hwaccels: Vec::new(),
        video_filters: vec![KnownVideoFilter::TonemapOpencl, KnownVideoFilter::TonemapVaapi],
        preferred_filters: vec![(KnownVideoFilter::TonemapOpencl, 1), (KnownVideoFilter::TonemapVaapi, 0)],
    };
    let best_fit = info.find_best_fit([KnownVideoFilter::TonemapOpencl, KnownVideoFilter::TonemapVaapi].as_ref());
    assert_eq!(best_fit, Some(KnownVideoFilter::TonemapVaapi));
}

#[test]
fn ffmpeg_output_lists_each_method_and_rank_once() {
    let hwaccels = "Hardware acceleration methods:\ncuda\nvaapi\ncuda\n";
    let filters = " ... tonemap_vaapi     V->V       Tonemap\n ... tonemap_opencl    V->V       Tonemap\n";
    let prefs = vec![String::from("tonemap_vaapi"), String::from("tonemap_opencl"), String::from("tonemap_vaapi")];
    let info = FfmpegInfo::from_ffmpeg_output(hwaccels, filters, &vec![], &prefs);
    assert_eq!(info.hwaccels.len(), 2);
    assert_eq!(info.video_filters.len(), 2);
    assert_eq!(info.preferred_filters.len(), 2);
    assert_eq!(info.preference_position(&KnownVideoFilter::TonemapVaapi), 2);
    assert_eq!(info.preference_position(&KnownVideoFilter::TonemapOpencl), 1);
}
