use vstd::prelude::*;

verus! {

/// A declared environment entry, exported to the process environment and
/// passed to every spawned command.
#[derive(Debug)]
pub struct EnvVar {
    pub name: String,
    pub value: String,
}

/// Mathematical model of an `EnvVar`.
pub struct EnvVarView {
    pub name: Seq<char>,
    pub value: Seq<char>,
}

impl View for EnvVar {
    type V = EnvVarView;

    open spec fn view(&self) -> EnvVarView {
        EnvVarView { name: self.name@, value: self.value@ }
    }
}

impl DeepView for EnvVar {
    type V = EnvVarView;

    open spec fn deep_view(&self) -> EnvVarView {
        self.view()
    }
}

impl Clone for EnvVar {
    fn clone(&self) -> (r: Self)
        ensures
            r@ == self@,
    {
        EnvVar { name: self.name.clone(), value: self.value.clone() }
    }
}

/// Index of the first entry named `name`, scanning from `from`.
pub open spec fn spec_env_find(m: Seq<EnvVarView>, name: Seq<char>, from: int) -> Option<int>
    decreases m.len() - from,
{
    if from < 0 || from >= m.len() {
        None
    } else if m[from].name == name {
        Some(from)
    } else {
        spec_env_find(m, name, from + 1)
    }
}

/// Adds one entry to an environment map: an entry with a fresh name is
/// appended, while an entry whose name is already present only replaces
/// that name's value.
pub open spec fn spec_env_upsert(m: Seq<EnvVarView>, e: EnvVarView) -> Seq<EnvVarView> {
    match spec_env_find(m, e.name, 0) {
        Some(i) => m.update(i, EnvVarView { name: m[i].name, value: e.value }),
        None => m.push(e),
    }
}

/// The environment map declared entries build up, in order: every name
/// appears once, at its first occurrence, carrying the value of its last
/// occurrence.
pub open spec fn spec_env_map(s: Seq<EnvVarView>) -> Seq<EnvVarView>
    decreases s.len(),
{
    if s.len() == 0 {
        Seq::empty()
    } else {
        spec_env_upsert(spec_env_map(s.drop_last()), s.last())
    }
}

/// Building the resolved environment from a list of declared entries.
pub trait EnvVarSliceExt {
    /// The model of the declared entries.
    spec fn spec_entries(&self) -> Seq<EnvVarView>;

    fn to_env_map(&self) -> (r: Vec<EnvVar>)
        ensures
            r.deep_view() == spec_env_map(self.spec_entries()),
    ;
}

/// Finds the entry already recorded under `name`, if any.
fn find_env(entries: &Vec<EnvVar>, name: &String) -> (r: Option<usize>)
    ensures
        match (r, spec_env_find(entries.deep_view(), name@, 0)) {
            (Some(j), Some(sj)) => j == sj && j < entries.len(),
            (None, None) => true,
            _ => false,
        },
{
    let ghost dv = entries.deep_view();
    let mut j: usize = 0;
    while j < entries.len()
        invariant
            j <= entries.len(),
            dv == entries.deep_view(),
            dv.len() == entries.len(),
            spec_env_find(dv, name@, 0) == spec_env_find(dv, name@, j as int),
        decreases entries.len() - j,
    {
        assert(dv[j as int] == entries[j as int]@);
        if entries[j].name == *name {
            return Some(j);
        }
        assert(spec_env_find(dv, name@, j as int) == spec_env_find(dv, name@, j as int + 1));
        j = j + 1;
    }
    None
}

impl EnvVarSliceExt for Vec<EnvVar> {
    open spec fn spec_entries(&self) -> Seq<EnvVarView> {
        self.deep_view()
    }

    fn to_env_map(&self) -> (r: Vec<EnvVar>) {
        let ghost sv = self.deep_view();
        let mut r: Vec<EnvVar> = Vec::new();
        let mut i: usize = 0;
        while i < self.len()
            invariant
                i <= self.len(),
                sv == self.deep_view(),
                sv.len() == self.len(),
                r.deep_view() == spec_env_map(sv.take(i as int)),
            decreases self.len() - i,
        {
            let ghost before = r.deep_view();
            assert(sv[i as int] == self[i as int]@);
            match find_env(&r, &self[i].name) {
                Some(j) => {
                    let kept_name = r[j].name.clone();
                    let value = self[i].value.clone();
                    r[j] = EnvVar { name: kept_name, value };
                    assert(r.deep_view() =~= spec_env_upsert(before, sv[i as int]));
                },
                None => {
                    r.push(self[i].clone());
                    assert(r.deep_view() =~= spec_env_upsert(before, sv[i as int]));
                },
            }
            proof {
                assert(sv.take(i as int + 1).drop_last() =~= sv.take(i as int));
                assert(sv.take(i as int + 1).last() == sv[i as int]);
            }
            i = i + 1;
        }
        assert(sv.take(sv.len() as int) =~= sv);
        r
    }
}

} // verus!
