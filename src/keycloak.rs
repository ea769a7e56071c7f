use vstd::prelude::*;

verus! {

/// A named attribute of a user, with its values.
pub struct UserAttribute {
    pub name: String,
    pub values: Vec<String>,
}

/// What the identity provider holds of a customer that this system reads or
/// changes.
pub struct User {
    pub id: u128,
    pub email: Option<String>,
    pub first_name: Option<String>,
    pub last_name: Option<String>,
    pub realm_roles: Vec<String>,
    pub attributes: Vec<UserAttribute>,
}

/// A realm role of the identity provider.
pub struct Role {
    pub id: u128,
    pub name: String,
}

pub open spec fn has_attribute_in(attrs: Seq<UserAttribute>, name: Seq<char>) -> bool {
    exists|i: int| 0 <= i < attrs.len() && (#[trigger] attrs[i]).name@ == name
}

/// No two attributes share a name.
pub open spec fn names_unique(attrs: Seq<UserAttribute>) -> bool {
    forall|i: int, j: int|
        0 <= i < attrs.len() && 0 <= j < attrs.len() && i != j ==> (#[trigger] attrs[i]).name@ != (#[trigger] attrs[j]).name@
}

impl User {
    pub open spec fn wf(&self) -> bool {
        names_unique(self.attributes@)
    }

    /// Whether no two attributes share a name, as `set_attribute` needs.
    pub fn attributes_unique(&self) -> (r: bool)
        ensures
            r == self.wf(),
    {
        let n = self.attributes.len();
        let mut i: usize = 0;
        while i < n
            invariant
                i <= n == self.attributes@.len(),
                forall|a: int, b: int|
                    0 <= a < i && 0 <= b < n && a != b ==> (#[trigger] self.attributes@[a]).name@ != (#[trigger] self.attributes@[b]).name@,
            decreases n - i,
        {
            let mut j: usize = 0;
            while j < n
                invariant
                    i < n == self.attributes@.len(),
                    j <= n,
                    forall|a: int, b: int|
                        0 <= a < i && 0 <= b < n && a != b ==> (#[trigger] self.attributes@[a]).name@ != (#[trigger] self.attributes@[b]).name@,
                    forall|b: int| 0 <= b < j && b != i ==> self.attributes@[i as int].name@ != (#[trigger] self.attributes@[b]).name@,
                decreases n - j,
            {
                if j != i && self.attributes[i].name == self.attributes[j].name {
                    return false;
                }
                j = j + 1;
            }
            i = i + 1;
        }
        true
    }

    pub fn has_attribute(&self, attr: &str) -> (r: bool)
        ensures
            r == has_attribute_in(self.attributes@, attr@),
    {
        let key = attr.to_owned();
        let mut i: usize = 0;
        while i < self.attributes.len()
            invariant
                i <= self.attributes@.len(),
                key@ == attr@,
                forall|k: int| 0 <= k < i ==> (#[trigger] self.attributes@[k]).name@ != attr@,
            decreases self.attributes@.len() - i,
        {
            if self.attributes[i].name == key {
                return true;
            }
            i = i + 1;
        }
        false
    }

    /// Sets `attr` to the single value `value`, replacing what it held.
    pub fn set_attribute(&mut self, attr: &str, value: &str)
        requires
            old(self).wf(),
        ensures
            final(self).wf(),
            final(self).id == old(self).id,
            final(self).email == old(self).email,
            final(self).first_name == old(self).first_name,
            final(self).last_name == old(self).last_name,
            final(self).realm_roles == old(self).realm_roles,
            has_attribute_in(old(self).attributes@, attr@) ==> exists|i: int|
                0 <= i < old(self).attributes@.len() && (#[trigger] old(self).attributes@[i]).name@ == attr@
                    && final(self).attributes@.len() == old(self).attributes@.len()
                    && final(self).attributes@[i].name@ == attr@
                    && final(self).attributes@[i].values@.len() == 1
                    && final(self).attributes@[i].values@[0]@ == value@
                    && forall|j: int| 0 <= j < old(self).attributes@.len() && j != i ==> #[trigger] final(self).attributes@[j] == old(self).attributes@[j],
            !has_attribute_in(old(self).attributes@, attr@) ==> {
                &&& final(self).attributes@.len() == old(self).attributes@.len() + 1
                &&& final(self).attributes@.drop_last() == old(self).attributes@
                &&& final(self).attributes@.last().name@ == attr@
                &&& final(self).attributes@.last().values@.len() == 1
                &&& final(self).attributes@.last().values@[0]@ == value@
            },
    {
        let key = attr.to_owned();
        let mut values: Vec<String> = Vec::new();
        values.push(value.to_owned());
        let mut i: usize = 0;
        while i < self.attributes.len()
            invariant
                i <= self.attributes@.len(),
                self.attributes@ == old(self).attributes@,
                *self == *old(self),
                names_unique(self.attributes@),
                values@.len() == 1 && values@[0]@ == value@,
                key@ == attr@,
                forall|k: int| 0 <= k < i ==> (#[trigger] self.attributes@[k]).name@ != attr@,
            decreases self.attributes@.len() - i,
        {
            if self.attributes[i].name == key {
                let ghost before = self.attributes@;
                let new_attr = UserAttribute { name: attr.to_owned(), values };
                assert(new_attr.values@.len() == 1 && new_attr.values@[0]@ == value@);
                assert(before[i as int].name@ == attr@);
                self.attributes.set(i, new_attr);
                assert(self.attributes@ == before.update(i as int, new_attr));
                assert forall|a: int, b: int|
                    0 <= a < self.attributes@.len() && 0 <= b < self.attributes@.len() && a != b
                        implies (#[trigger] self.attributes@[a]).name@ != (#[trigger] self.attributes@[b]).name@ by {
                    if a != i {
                        assert(before[a] == self.attributes@[a]);
                        assert(before[a].name@ != before[i as int].name@);
                    }
                    if b != i {
                        assert(before[b] == self.attributes@[b]);
                        assert(before[b].name@ != before[i as int].name@);
                    }
                }
                assert(old(self).attributes@[i as int].name@ == attr@);
                return;
            }
            i = i + 1;
        }
        self.attributes.push(UserAttribute { name: attr.to_owned(), values });
        assert(self.attributes@.drop_last() =~= old(self).attributes@);
    }
}

/// The first role of `available` named `name`, if any.
pub open spec fn first_named(available: Seq<Role>, name: Seq<char>) -> Option<Role>
    decreases available.len(),
{
    if available.len() == 0 {
        None
    } else if available[0].name@ == name {
        Some(available[0])
    } else {
        first_named(available.drop_first(), name)
    }
}

/// For each wanted name in turn, the first available role of that name;
/// names no available role has are passed over.
pub open spec fn roles_to_grant(available: Seq<Role>, wanted: Seq<Seq<char>>) -> Seq<Role>
    decreases wanted.len(),
{
    if wanted.len() == 0 {
        Seq::empty()
    } else {
        let rest = roles_to_grant(available, wanted.drop_last());
        match first_named(available, wanted.last()) {
            Some(r) => rest.push(r),
            None => rest,
        }
    }
}

fn copy_role(r: &Role) -> (c: Role)
    ensures
        c == *r,
{
    Role { id: r.id, name: r.name.clone() }
}

fn find_role(available: &Vec<Role>, name: &str) -> (r: Option<Role>)
    ensures
        r == first_named(available@, name@),
{
    let key = name.to_owned();
    let mut i: usize = 0;
    assert(available@.subrange(0, available@.len() as int) =~= available@);
    while i < available.len()
        invariant
            i <= available@.len(),
            key@ == name@,
            first_named(available@, name@) == first_named(available@.subrange(i as int, available@.len() as int), name@),
        decreases available@.len() - i,
    {
        let ghost rest = available@.subrange(i as int, available@.len() as int);
        assert(rest.drop_first() =~= available@.subrange(i + 1, available@.len() as int));
        if available[i].name == key {
            return Some(copy_role(&available[i]));
        }
        i = i + 1;
    }
    None
}

pub open spec fn names_view(names: Seq<String>) -> Seq<Seq<char>> {
    names.map_values(|s: String| s@)
}

/// The roles to grant a user who should hold the realm roles `wanted`,
/// picked from the roles the realm still offers the user.
pub fn roles_to_add(available: &Vec<Role>, wanted: &Vec<String>) -> (r: Vec<Role>)
    ensures
        r@ == roles_to_grant(available@, names_view(wanted@)),
{
    let mut out: Vec<Role> = Vec::new();
    let mut i: usize = 0;
    while i < wanted.len()
        invariant
            i <= wanted@.len(),
            out@ == roles_to_grant(available@, names_view(wanted@.subrange(0, i as int))),
        decreases wanted@.len() - i,
    {
        let found = find_role(available, wanted[i].as_str());
        assert(names_view(wanted@.subrange(0, i + 1)).drop_last() =~= names_view(wanted@.subrange(0, i as int)));
        match found {
            Some(role) => out.push(role),
            None => {},
        }
        i = i + 1;
    }
    assert(wanted@.subrange(0, i as int) =~= wanted@);
    out
}

} // verus!
