//! Figures that a front end shows beside a parsed package.
use vstd::prelude::*;
use crate::package_info::concat_text;
use crate::permission::Permission;

verus! {

/// How many permissions a package requests, and how many of them are
/// dangerous.
pub struct PermissionStats {
    pub total: usize,
    pub dangerous: usize,
}

/// Parameters of a request to parse package bytes held by the front end.
pub struct ApkDataParams {}

/// Parameters of a request for a preview temporary file.
pub struct TempFileParams {}

/// Host memory figures, in bytes.
pub struct MemoryInfo {
    pub total_memory: u64,
    pub used_memory: u64,
    pub total_swap: u64,
    pub used_swap: u64,
}

/// Front-end settings.
pub struct AppSettings {
    pub log_level: String,
    pub max_log_days: i32,
    pub auto_start: bool,
    pub auto_update: bool,
}

pub const DEFAULT_MAX_LOG_DAYS: i32 = 7;

impl Default for AppSettings {
    fn default() -> (r: AppSettings)
        ensures
            r.log_level@ == "info"@,
            r.max_log_days == DEFAULT_MAX_LOG_DAYS,
            !r.auto_start,
            r.auto_update,
    {
        AppSettings {
            log_level: "info".to_string(),
            max_log_days: DEFAULT_MAX_LOG_DAYS,
            auto_start: false,
            auto_update: true,
        }
    }
}

/// The dangerous permissions among `ps`, in order.
pub open spec fn dangerous_among(ps: Seq<Permission>) -> Seq<Seq<char>>
    decreases ps.len(),
{
    if ps.len() == 0 {
        seq![]
    } else if ps.last().is_dangerous {
        dangerous_among(ps.drop_last()).push(ps.last().name@)
    } else {
        dangerous_among(ps.drop_last())
    }
}

/// The dangerous entries of a permission list, in order.
pub fn dangerous_permissions(ps: &Vec<Permission>) -> (r: Vec<Permission>)
    ensures
        r@.map_values(|p: Permission| p.name@) == dangerous_among(ps@),
        forall|k: int| 0 <= k < r@.len() ==> (#[trigger] r@[k]).is_dangerous,
{
    let mut r: Vec<Permission> = Vec::new();
    let mut i: usize = 0;
    assert(ps@.subrange(0, 0) =~= seq![]);
    while i < ps.len()
        invariant
            i <= ps@.len(),
            r@.map_values(|p: Permission| p.name@) == dangerous_among(ps@.subrange(0, i as int)),
            forall|k: int| 0 <= k < r@.len() ==> (#[trigger] r@[k]).is_dangerous,
        decreases ps@.len() - i,
    {
        let p = &ps[i];
        proof {
            assert(ps@.subrange(0, i + 1).drop_last() =~= ps@.subrange(0, i as int));
        }
        if p.is_dangerous {
            let ghost before = r@;
            let name = p.name.clone();
            let entry = Permission { name, is_dangerous: true };
            r.push(entry);
            assert(r@.map_values(|p: Permission| p.name@) =~= before.map_values(
                |p: Permission| p.name@,
            ).push(entry.name@));
        }
        i = i + 1;
    }
    assert(ps@.subrange(0, ps@.len() as int) =~= ps@);
    r
}

/// Totals of a permission list.
pub fn permission_stats(ps: &Vec<Permission>) -> (r: PermissionStats)
    ensures
        r.total == ps@.len(),
        r.dangerous == dangerous_among(ps@).len(),
{
    let d = dangerous_permissions(ps);
    proof {
        assert(d@.map_values(|p: Permission| p.name@).len() == d@.len());
    }
    PermissionStats { total: ps.len(), dangerous: d.len() }
}

/// "<version name> (<version code>)".
pub fn formatted_version_info(version_name: &str, version_code: &str) -> (r: String)
    ensures
        r@ == version_name@ + " ("@ + version_code@ + ")"@,
{
    let a = concat_text(version_name, " (");
    let b = concat_text(a.as_str(), version_code);
    concat_text(b.as_str(), ")")
}

/// "Min SDK: <min>, Target SDK: <target>".
pub fn formatted_sdk_info(min_sdk: &str, target_sdk: &str) -> (r: String)
    ensures
        r@ == "Min SDK: "@ + min_sdk@ + ", Target SDK: "@ + target_sdk@,
{
    let a = concat_text("Min SDK: ", min_sdk);
    let b = concat_text(a.as_str(), ", Target SDK: ");
    concat_text(b.as_str(), target_sdk)
}

} // verus!
