use vstd::prelude::*;
use vstd::string::StringExecFns;

verus! {

/// Where the greeting handler is reachable: one route, bound to one
/// method and one path under a mount point.
pub struct RouteBinding {
    pub mount_point: String,
    pub method: String,
    pub path: String,
}

impl RouteBinding {
    /// The binding this service defines: GET on "/" mounted at "/".
    pub open spec fn wf(&self) -> bool {
        &&& self.mount_point@ == "/"@
        &&& self.method@ == "GET"@
        &&& self.path@ == "/"@
    }

    /// Whether a request is routed to the greeting handler: its method
    /// and path must equal the bound ones. Anything else is left to the
    /// embedding server's default.
    pub fn routes(&self, method: &String, path: &String) -> (r: bool)
        ensures
            r == (method@ == self.method@ && path@ == self.path@),
    {
        *method == self.method && *path == self.path
    }
}

/// The service's whole HTTP surface: the greeting handler mounted on
/// GET "/", and nothing else.
pub fn rocket() -> (b: RouteBinding)
    ensures
        b.wf(),
{
    RouteBinding {
        mount_point: String::from_str("/"),
        method: String::from_str("GET"),
        path: String::from_str("/"),
    }
}

} // verus!
