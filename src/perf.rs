//! Per-flow performance counters.
use vstd::prelude::*;

verus! {

/// Request, response, error and round-trip-time counters of one flow.
#[derive(Debug, Clone, Copy, PartialEq, Eq)]
pub struct L7PerfStats {
    pub request_count: u32,
    pub response_count: u32,
    pub err_client_count: u32,
    pub err_server_count: u32,
    pub err_timeout: u32,
    pub rrt_count: u32,
    pub rrt_sum: u64,
    pub rrt_max: u64,
}

/// `x + 1`, held at the largest value.
pub open spec fn inc32(x: u32) -> u32 {
    if x < u32::MAX {
        (x + 1) as u32
    } else {
        x
    }
}

/// `x + y`, held at the largest value.
pub open spec fn add64(x: u64, y: u64) -> u64 {
    if x + y <= u64::MAX {
        (x + y) as u64
    } else {
        u64::MAX
    }
}

fn sat_inc32(x: u32) -> (r: u32)
    ensures
        r == inc32(x),
{
    if x < u32::MAX {
        x + 1
    } else {
        x
    }
}

/// All counters at zero.
pub open spec fn zero_stats() -> L7PerfStats {
    L7PerfStats {
        request_count: 0,
        response_count: 0,
        err_client_count: 0,
        err_server_count: 0,
        err_timeout: 0,
        rrt_count: 0,
        rrt_sum: 0,
        rrt_max: 0,
    }
}

impl L7PerfStats {

    pub open spec fn with_request(self) -> Self {
        L7PerfStats { request_count: inc32(self.request_count), ..self }
    }

    pub open spec fn with_response(self) -> Self {
        L7PerfStats { response_count: inc32(self.response_count), ..self }
    }

    pub open spec fn with_server_error(self) -> Self {
        L7PerfStats { err_server_count: inc32(self.err_server_count), ..self }
    }

    pub open spec fn with_rrt(self, rrt: u64) -> Self {
        L7PerfStats {
            rrt_count: inc32(self.rrt_count),
            rrt_sum: add64(self.rrt_sum, rrt),
            rrt_max: if rrt > self.rrt_max {
                rrt
            } else {
                self.rrt_max
            },
            ..self
        }
    }

    pub fn new() -> (r: Self)
        ensures
            r == zero_stats(),
    {
        L7PerfStats {
            request_count: 0,
            response_count: 0,
            err_client_count: 0,
            err_server_count: 0,
            err_timeout: 0,
            rrt_count: 0,
            rrt_sum: 0,
            rrt_max: 0,
        }
    }

    pub fn inc_req(&mut self)
        ensures
            *final(self) == old(self).with_request(),
    {
        self.request_count = sat_inc32(self.request_count);
    }

    pub fn inc_resp(&mut self)
        ensures
            *final(self) == old(self).with_response(),
    {
        self.response_count = sat_inc32(self.response_count);
    }

    pub fn inc_resp_err(&mut self)
        ensures
            *final(self) == old(self).with_server_error(),
    {
        self.err_server_count = sat_inc32(self.err_server_count);
    }

    pub fn update_rrt(&mut self, rrt: u64)
        ensures
            *final(self) == old(self).with_rrt(rrt),
    {
        self.rrt_count = sat_inc32(self.rrt_count);
        self.rrt_sum = self.rrt_sum.saturating_add(rrt);
        if rrt > self.rrt_max {
            self.rrt_max = rrt;
        }
    }
}

impl Default for L7PerfStats {
    fn default() -> (r: Self)
        ensures
            r == zero_stats(),
    {
        L7PerfStats::new()
    }
}

} // verus!
