use vstd::prelude::*;
use vstd::string::StringSliceAdditionalSpecFns;

verus! {

/// The role of a surface.
///
/// A surface is given a role at most once; a role that is an intermediate
/// stage of a protocol (a shell surface that becomes a toplevel) may later be
/// replaced.
#[derive(Debug)]
pub struct Role(Option<&'static str>);

/// The surface already has a role.
#[derive(Debug)]
pub struct AlreadyHasRole;

/// The role that `set_role(tag)` leaves on a surface whose role was `role`.
pub open spec fn role_after_set(role: Option<&'static str>, tag: &'static str) -> Option<&'static str> {
    if role.is_some() {
        role
    } else {
        Some(tag)
    }
}

impl Role {
    /// A surface without a role.
    pub fn new() -> (r: Role)
        ensures
            r.tag() == None::<&'static str>,
    {
        Role(None)
    }

    /// The current role tag, `None` before any role is set.
    pub closed spec fn tag(&self) -> Option<&'static str> {
        self.0
    }

    /// Gets the current role.
    ///
    /// Returns `None` if no role is set.
    pub fn role(&self) -> (r: Option<&'static str>)
        ensures
            r == self.tag(),
    {
        self.0
    }

    /// Sets the role.
    ///
    /// Fails with `AlreadyHasRole`, and changes nothing, if a role is set.
    pub fn set_role(&mut self, role: &'static str) -> (r: Result<(), AlreadyHasRole>)
        ensures
            r.is_ok() == old(self).tag().is_none(),
            final(self).tag() == role_after_set(old(self).tag(), role),
    {
        if self.0.is_some() {
            return Err(AlreadyHasRole);
        }
        self.0 = Some(role);
        Ok(())
    }

    /// Replaces the current role, which must be set.
    ///
    /// For protocol implementations `set_role` should be preferred; this is for
    /// roles that a later request specializes.
    pub fn replace_role(&mut self, role: &'static str)
        requires
            old(self).tag().is_some(),
        ensures
            final(self).tag() == Some(role),
    {
        self.0 = Some(role);
    }

    /// Whether the current role is `tag`, compared by its characters.
    pub fn is(&self, tag: &str) -> (r: bool)
        ensures
            r == (self.tag().is_some() && self.tag().unwrap()@ == tag@),
    {
        match self.0 {
            Some(current) => str_equal(current, tag),
            None => false,
        }
    }
}

/// Setting a role succeeds exactly once: after one success, every later
/// `set_role`, with any tag, fails and keeps the first tag.
pub proof fn lemma_role_set_once(role: Option<&'static str>, first: &'static str, later: &'static str)
    requires
        role.is_none(),
    ensures
        role_after_set(role, first) == Some(first),
        role_after_set(role_after_set(role, first), later) == Some(first),
{
}

/// Whether two strings hold the same characters.
pub fn str_equal(a: &str, b: &str) -> (r: bool)
    ensures
        r == (a@ == b@),
{
    let x = a.as_bytes();
    let y = b.as_bytes();
    if x.len() != y.len() {
        proof {
            if a@ == b@ {
                assert(a.spec_bytes() == b.spec_bytes());
            }
        }
        return false;
    }
    let mut i: usize = 0;
    while i < x.len()
        invariant
            x@ == a.spec_bytes(),
            y@ == b.spec_bytes(),
            x@.len() == y@.len(),
            i <= x@.len(),
            forall|k: int| 0 <= k < i ==> x@[k] == y@[k],
        decreases x@.len() - i,
    {
        if x[i] != y[i] {
            proof {
                if a@ == b@ {
                    assert(a.spec_bytes() == b.spec_bytes());
                }
            }
            return false;
        }
        i = i + 1;
    }
    proof {
        assert(x@ =~= y@);
        vstd::utf8::encode_utf8_decode_utf8(a@);
        vstd::utf8::encode_utf8_decode_utf8(b@);
    }
    true
}

} // verus!
