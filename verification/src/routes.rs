//! The endpoints the service answers on.

use vstd::prelude::*;

verus! {

/// The request methods in use.
#[derive(Clone, Copy, Debug, PartialEq, Eq, Structural)]
pub enum Method {
    Get,
    Post,
}

/// What a route leads to.
#[derive(Clone, Copy, Debug, PartialEq, Eq, Structural)]
pub enum Endpoint {
    /// The greeting.
    Index,
    /// Upload of an image from which a mesh is reconstructed.
    UploadObj,
    /// Download of a stored mesh, as it is.
    DownloadObj,
    /// Upload of an image into the store.
    UploadImg,
    /// Download of a stored image, transformed as the request body asks.
    DownloadImg,
}

/// One route: the method and path it answers on, whether the rest of the
/// path names a stored file, the largest upload it accepts in bytes (0 for
/// a route that takes none), and where it leads.
#[derive(Clone, Copy, Debug, PartialEq, Eq)]
pub struct Route {
    pub method: Method,
    pub path: &'static str,
    pub takes_identifier: bool,
    pub upload_limit: u64,
    pub endpoint: Endpoint,
}

/// The largest image accepted for reconstruction: 5 MiB.
pub const MESH_UPLOAD_LIMIT: u64 = 5242880;

/// The largest image accepted into the store: 10 MiB.
pub const IMAGE_UPLOAD_LIMIT: u64 = 10485760;

/// The greeting served at the root path.
pub open spec fn greeting() -> Seq<char> {
    "Hello, world!"@
}

/// The routes of the service, in the order they are mounted.
pub open spec fn routes() -> Seq<Route> {
    seq![
        Route {
            method: Method::Get,
            path: "/",
            takes_identifier: false,
            upload_limit: 0,
            endpoint: Endpoint::Index,
        },
        Route {
            method: Method::Post,
            path: "/upload/obj",
            takes_identifier: false,
            upload_limit: MESH_UPLOAD_LIMIT,
            endpoint: Endpoint::UploadObj,
        },
        Route {
            method: Method::Get,
            path: "/download/obj",
            takes_identifier: true,
            upload_limit: 0,
            endpoint: Endpoint::DownloadObj,
        },
        Route {
            method: Method::Post,
            path: "/upload/img",
            takes_identifier: false,
            upload_limit: IMAGE_UPLOAD_LIMIT,
            endpoint: Endpoint::UploadImg,
        },
        Route {
            method: Method::Get,
            path: "/download/img",
            takes_identifier: true,
            upload_limit: 0,
            endpoint: Endpoint::DownloadImg,
        },
    ]
}

/// Answers the root path with a fixed greeting.
pub fn index() -> (body: &'static str)
    ensures
        body@ == greeting(),
{
    "Hello, world!"
}

/// The routes to mount at the root of the server.
pub fn rocket() -> (mounted: Vec<Route>)
    ensures
        mounted@ == routes(),
{
    let mut mounted: Vec<Route> = Vec::new();
    mounted.push(
        Route {
            method: Method::Get,
            path: "/",
            takes_identifier: false,
            upload_limit: 0,
            endpoint: Endpoint::Index,
        },
    );
    mounted.push(
        Route {
            method: Method::Post,
            path: "/upload/obj",
            takes_identifier: false,
            upload_limit: MESH_UPLOAD_LIMIT,
            endpoint: Endpoint::UploadObj,
        },
    );
    mounted.push(
        Route {
            method: Method::Get,
            path: "/download/obj",
            takes_identifier: true,
            upload_limit: 0,
            endpoint: Endpoint::DownloadObj,
        },
    );
    mounted.push(
        Route {
            method: Method::Post,
            path: "/upload/img",
            takes_identifier: false,
            upload_limit: IMAGE_UPLOAD_LIMIT,
            endpoint: Endpoint::UploadImg,
        },
    );
    mounted.push(
        Route {
            method: Method::Get,
            path: "/download/img",
            takes_identifier: true,
            upload_limit: 0,
            endpoint: Endpoint::DownloadImg,
        },
    );
    assert(mounted@ =~= routes());
    mounted
}

} // verus!
