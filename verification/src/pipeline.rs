//! The layers that wrap every route.

use vstd::prelude::*;

verus! {

/// How long a request may take before it is given up, in seconds.
pub const REQUEST_TIMEOUT_SECS: u64 = 30;

/// One layer around the routes.
#[derive(Clone, Copy, Debug, PartialEq, Eq)]
pub enum Layer {
    /// Records method, path, status and latency; changes nothing.
    Trace,
    /// Gives a request up after this many seconds.
    Timeout { seconds: u64 },
    /// Compresses the reply's body where the client accepts it.
    Compression { gzip: bool },
}

/// The layers from the outermost to the innermost.
pub open spec fn layer_order() -> Seq<Layer> {
    seq![
        Layer::Trace,
        Layer::Timeout { seconds: REQUEST_TIMEOUT_SECS },
        Layer::Compression { gzip: true },
    ]
}

/// The layers to wrap the routes in, from the outermost to the innermost:
/// tracing sees every request first and every reply last, the timeout covers
/// compression and handling, compression sits next to the routes.
pub fn layers() -> (r: Vec<Layer>)
    ensures
        r@ == layer_order(),
{
    let mut r: Vec<Layer> = Vec::new();
    r.push(Layer::Trace);
    r.push(Layer::Timeout { seconds: REQUEST_TIMEOUT_SECS });
    r.push(Layer::Compression { gzip: true });
    proof {
        assert(r@ =~= layer_order());
    }
    r
}

} // verus!
