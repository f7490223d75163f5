use vstd::prelude::*;

use crate::api::{PodPhaseApi, UnanalyzedApi};
use crate::config::{IncludeCppConfig, IncludeCppConfigView};
use crate::error::{ConvertError, ConvertErrorView};
use crate::pod::{analyze_pod_apis, pod_phase, PodApiView};
use crate::tdef::{convert_typedef_targets, typedef_phase, RawApiView};
use crate::type_converter::api_views;

verus! {

/// The analyses in order over the items of a parse: none at all is a
/// failure of the whole run, as is a plain-data request that cannot be met;
/// failures of single items become placeholders.
pub open spec fn analysis_of(cfg: IncludeCppConfigView, apis: Seq<RawApiView>) -> Result<
    Seq<PodApiView>,
    ConvertErrorView,
> {
    if apis.len() == 0 {
        Err(ConvertErrorView::NoContent)
    } else {
        pod_phase(cfg, typedef_phase(cfg, apis))
    }
}

/// Runs the typedef analysis, then the plain-data analysis, over the items
/// of a parse.
pub fn analyze_apis(apis: Vec<UnanalyzedApi>, config: &IncludeCppConfig) -> (r: Result<
    Vec<PodPhaseApi>,
    ConvertError,
>)
    ensures
        match analysis_of(config@, api_views(apis@)) {
            Ok(v) => r matches Ok(x) && api_views(x@) == v,
            Err(e) => r matches Err(x) && x@ == e,
        },
{
    if apis.len() == 0 {
        return Err(ConvertError::NoContent);
    }
    let typed = convert_typedef_targets(config, apis);
    analyze_pod_apis(typed, config)
}

} // verus!
