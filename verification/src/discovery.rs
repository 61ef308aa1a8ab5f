//! Names used on the service-discovery wire: the service type, the short
//! host label of an id, and the instance name inside a full service name.
use vstd::prelude::*;

verus! {

/// The advertised service type.
pub const SERVICE_TYPE: &'static str = "_yonder._tcp.local.";

/// The text of `id` before its first `-` (all of it when there is none).
pub open spec fn short_host_id_of(id: Seq<char>) -> Seq<char> {
    if exists|i: int| 0 <= i < id.len() && id[i] == '-' {
        let i = choose|i: int|
            0 <= i < id.len() && id[i] == '-' && forall|j: int| 0 <= j < i ==> id[j] != '-';
        id.take(i)
    } else {
        id
    }
}

/// Host labels are kept short: the part of the id before its first `-`.
pub fn short_host_id(id: &str) -> (r: String)
    ensures
        r@ == short_host_id_of(id@),
{
    let len = id.unicode_len();
    let mut i: usize = 0;
    while i < len
        invariant
            i <= len == id@.len(),
            forall|j: int| 0 <= j < i ==> id@[j] != '-',
        decreases len - i,
    {
        if id.get_char(i) == '-' {
            let r = id.substring_char(0, i).to_string();
            proof {
                let k = choose|k: int|
                    0 <= k < id@.len() && id@[k] == '-' && forall|j: int|
                        0 <= j < k ==> id@[j] != '-';
                assert(id@[i as int] == '-');
                if k < i {
                } else if k > i {
                    assert(id@[i as int] != '-');
                }
                assert(k == i);
                assert(r@ =~= id@.take(i as int));
            }
            return r;
        }
        i = i + 1;
    }
    id.to_string()
}

/// The instance name inside a full service name: the name without the
/// `.` and service type at its end, or the whole name when it does not
/// end so.
pub open spec fn instance_of(fullname: Seq<char>) -> Seq<char> {
    let suffix = "."@ + SERVICE_TYPE@;
    if fullname.len() >= suffix.len() && fullname.subrange(
        fullname.len() - suffix.len(),
        fullname.len() as int,
    ) == suffix {
        fullname.subrange(0, fullname.len() - suffix.len())
    } else {
        fullname
    }
}

/// The instance name inside a full service name.
pub fn instance_from_fullname(fullname: &str) -> (r: String)
    ensures
        r@ == instance_of(fullname@),
{
    let mut suffix = ".".to_string();
    suffix.append(SERVICE_TYPE);
    proof {
        reveal_strlit(".");
    }
    let flen = fullname.unicode_len();
    let slen = suffix.as_str().unicode_len();
    if flen >= slen {
        let tail = fullname.substring_char(flen - slen, flen);
        if crate::text::str_eq(tail, suffix.as_str()) {
            return fullname.substring_char(0, flen - slen).to_string();
        }
    }
    fullname.to_string()
}

} // verus!
