use vstd::prelude::*;
use vstd::string::StringExecFns;
use crate::json::{
    push_char, push_quoted, quoted, render_members, render_object, render_str_members,
    render_value, JsonModel,
};

verus! {

/// One field of a partial update: left out, cleared, or set.
pub enum Field<T> {
    /// Not part of this update: the server keeps what it has.
    Unset,
    /// Cleared on the server.
    Null,
    /// Set to the value.
    Value(T),
}

/// A partial update of a stream's metadata.
pub struct StreamChangeset {
    pub live: Option<bool>,
    pub title: Field<String>,
    pub term_type: Field<String>,
    pub term_version: Field<String>,
    pub shell: Field<String>,
    /// Environment variables, as name and value, in the order they are written.
    pub env: Field<Vec<(String, String)>>,
}

impl Default for StreamChangeset {
    fn default() -> (r: StreamChangeset)
        ensures
            r.live is None,
            r.title is Unset,
            r.term_type is Unset,
            r.term_version is Unset,
            r.shell is Unset,
            r.env is Unset,
    {
        StreamChangeset {
            live: None,
            title: Field::Unset,
            term_type: Field::Unset,
            term_version: Field::Unset,
            shell: Field::Unset,
            env: Field::Unset,
        }
    }
}

/// Whether no two environment variables share a name.
pub open spec fn env_names_distinct(v: Seq<(String, String)>) -> bool {
    forall|i: int, j: int| 0 <= i < j < v.len() ==> #[trigger] v[i].0@ != #[trigger] v[j].0@
}

impl StreamChangeset {
    /// The environment, where it is set, is a map: its names are distinct.
    pub open spec fn well_formed(&self) -> bool {
        match self.env {
            Field::Value(v) => env_names_distinct(v@),
            _ => true,
        }
    }

    /// Whether the environment, where it is set, names no variable twice.
    pub fn has_distinct_env_names(&self) -> (r: bool)
        ensures
            r == self.well_formed(),
    {
        match &self.env {
            Field::Value(v) => distinct_names(v),
            _ => true,
        }
    }
}

fn distinct_names(v: &Vec<(String, String)>) -> (r: bool)
    ensures
        r == env_names_distinct(v@),
{
    let mut j: usize = 0;
    while j < v.len()
        invariant
            j <= v@.len(),
            forall|a: int, b: int| 0 <= a < b < j ==> #[trigger] v@[a].0@ != #[trigger] v@[b].0@,
        decreases v@.len() - j,
    {
        let mut i: usize = 0;
        while i < j
            invariant
                i <= j < v@.len(),
                forall|a: int, b: int| 0 <= a < b < j ==> #[trigger] v@[a].0@ != #[trigger] v@[b].0@,
                forall|a: int| 0 <= a < i ==> #[trigger] v@[a].0@ != v@[j as int].0@,
            decreases j - i,
        {
            if v[i].0 == v[j].0 {
                assert(v@[i as int].0@ == v@[j as int].0@);
                return false;
            }
            i = i + 1;
        }
        j = j + 1;
    }
    true
}

/// The environment variables as pairs of character sequences.
pub open spec fn env_pairs(v: Seq<(String, String)>) -> Seq<(Seq<char>, Seq<char>)> {
    v.map_values(|p: (String, String)| (p.0@, p.1@))
}

/// The member that `live` contributes to the body.
pub open spec fn live_member(live: Option<bool>) -> Seq<(Seq<char>, JsonModel)> {
    match live {
        Some(b) => seq![("live"@, JsonModel::Bool(b))],
        None => seq![],
    }
}

/// The member that a text field contributes to the body.
pub open spec fn text_member(key: Seq<char>, f: Field<String>) -> Seq<(Seq<char>, JsonModel)> {
    match f {
        Field::Unset => seq![],
        Field::Null => seq![(key, JsonModel::Null)],
        Field::Value(s) => seq![(key, JsonModel::Str(s@))],
    }
}

/// The member that `env` contributes to the body.
pub open spec fn env_member(f: Field<Vec<(String, String)>>) -> Seq<(Seq<char>, JsonModel)> {
    match f {
        Field::Unset => seq![],
        Field::Null => seq![("env"@, JsonModel::Null)],
        Field::Value(v) => seq![("env"@, JsonModel::StrMap(env_pairs(v@)))],
    }
}

/// The members of the encoded body, in the order they are written.
pub open spec fn changeset_members(c: StreamChangeset) -> Seq<(Seq<char>, JsonModel)> {
    live_member(c.live) + text_member("title"@, c.title) + text_member("term_type"@, c.term_type)
        + text_member("term_version"@, c.term_version) + text_member("shell"@, c.shell)
        + env_member(c.env)
}

/// No member of `m` has the key `key`.
pub open spec fn lacks_key(m: Seq<(Seq<char>, JsonModel)>, key: Seq<char>) -> bool {
    forall|i: int| 0 <= i < m.len() ==> #[trigger] m[i].0 != key
}

/// Some member of `m` is `key` with the value `v`.
pub open spec fn has_member(m: Seq<(Seq<char>, JsonModel)>, key: Seq<char>, v: JsonModel) -> bool {
    exists|i: int| 0 <= i < m.len() && #[trigger] m[i] == (key, v)
}

/// How a body's members show one text field: no member when it is left out, a null member when
/// it is cleared, its text when it is set.
pub open spec fn shows_text(m: Seq<(Seq<char>, JsonModel)>, key: Seq<char>, f: Field<String>) -> bool {
    match f {
        Field::Unset => lacks_key(m, key),
        Field::Null => has_member(m, key, JsonModel::Null),
        Field::Value(s) => has_member(m, key, JsonModel::Str(s@)),
    }
}

/// In the body of any changeset, a field that is left out appears under no key, a field that is
/// cleared appears with null, and a field that is set appears with its value; no key appears
/// twice.
pub proof fn lemma_changeset_fields(c: StreamChangeset)
    requires
        c.well_formed(),
    ensures
        ({
            let m = changeset_members(c);
            &&& match c.live {
                None => lacks_key(m, "live"@),
                Some(b) => has_member(m, "live"@, JsonModel::Bool(b)),
            }
            &&& shows_text(m, "title"@, c.title)
            &&& shows_text(m, "term_type"@, c.term_type)
            &&& shows_text(m, "term_version"@, c.term_version)
            &&& shows_text(m, "shell"@, c.shell)
            &&& match c.env {
                Field::Unset => lacks_key(m, "env"@),
                Field::Null => has_member(m, "env"@, JsonModel::Null),
                Field::Value(v) => {
                    &&& has_member(m, "env"@, JsonModel::StrMap(env_pairs(v@)))
                    &&& forall|i: int, j: int|
                        0 <= i < j < v@.len() ==> #[trigger] env_pairs(v@)[i].0
                            != #[trigger] env_pairs(v@)[j].0
                },
            }
            &&& forall|i: int, j: int| 0 <= i < j < m.len() ==> m[i].0 != m[j].0
        }),
{
    reveal_strlit("live");
    reveal_strlit("title");
    reveal_strlit("term_type");
    reveal_strlit("term_version");
    reveal_strlit("shell");
    reveal_strlit("env");
    let s0 = live_member(c.live);
    let s1 = text_member("title"@, c.title);
    let s2 = text_member("term_type"@, c.term_type);
    let s3 = text_member("term_version"@, c.term_version);
    let s4 = text_member("shell"@, c.shell);
    let s5 = env_member(c.env);
    let m = changeset_members(c);
    let keys = seq!["live"@, "title"@, "term_type"@, "term_version"@, "shell"@, "env"@];
    let segs = seq![s0, s1, s2, s3, s4, s5];
    assert(forall|a: int, b: int| 0 <= a < b < 6 ==> keys[a] != keys[b]) by {
        assert(keys[0].len() == 4 && keys[1].len() == 5 && keys[2].len() == 9);
        assert(keys[3].len() == 12 && keys[4].len() == 5 && keys[5].len() == 3);
        assert(keys[1][0] != keys[4][0]);
    }
    // each member of the body is the member of exactly one segment
    let owner = |i: int| {
        if i < s0.len() {
            0
        } else if i < s0.len() + s1.len() {
            1
        } else if i < s0.len() + s1.len() + s2.len() {
            2
        } else if i < s0.len() + s1.len() + s2.len() + s3.len() {
            3
        } else if i < s0.len() + s1.len() + s2.len() + s3.len() + s4.len() {
            4
        } else {
            5int
        }
    };
    assert(forall|k: int| 0 <= k < 6 ==> segs[k].len() <= 1);
    assert(forall|k: int| 0 <= k < 6 ==> segs[k].len() == 1 ==> #[trigger] segs[k][0].0 == keys[k]);
    assert(m =~= s0 + s1 + s2 + s3 + s4 + s5);
    assert(forall|i: int| 0 <= i < m.len() ==> 0 <= #[trigger] owner(i) < 6 && segs[owner(i)].len()
        == 1 && m[i] == segs[owner(i)][0]);
    assert(forall|i: int, j: int| 0 <= i < j < m.len() ==> #[trigger] owner(i) < #[trigger] owner(j));
    assert(forall|i: int| 0 <= i < m.len() ==> #[trigger] m[i].0 == keys[owner(i)]);
    assert(forall|k: int, i: int| 0 <= k < 6 && 0 <= i < m.len() && owner(i) != k ==> m[i].0 != keys[k]);
    if s0.len() == 1 { assert(m[0] == s0[0]); }
    if s1.len() == 1 { assert(m[s0.len() as int] == s1[0]); }
    if s2.len() == 1 { assert(m[(s0.len() + s1.len()) as int] == s2[0]); }
    if s3.len() == 1 { assert(m[(s0.len() + s1.len() + s2.len()) as int] == s3[0]); }
    if s4.len() == 1 { assert(m[(s0.len() + s1.len() + s2.len() + s3.len()) as int] == s4[0]); }
    if s5.len() == 1 {
        assert(m[(s0.len() + s1.len() + s2.len() + s3.len() + s4.len()) as int] == s5[0]);
    }
}

proof fn lemma_members_push(done: Seq<(Seq<char>, JsonModel)>, k: Seq<char>, v: JsonModel)
    ensures
        render_members(done.push((k, v))) == render_members(done) + (if done.len() == 0 {
            Seq::<char>::empty()
        } else {
            seq![',']
        }) + quoted(k) + seq![':'] + render_value(v),
{
    let m = done.push((k, v));
    assert(m.drop_last() =~= done);
    if done.len() == 0 {
        assert(render_members(done) + Seq::<char>::empty() + quoted(k) + seq![':']
            + render_value(v) =~= quoted(k) + seq![':'] + render_value(v));
    }
}

proof fn lemma_str_members_push(done: Seq<(Seq<char>, Seq<char>)>, k: Seq<char>, v: Seq<char>)
    ensures
        render_str_members(done.push((k, v))) == render_str_members(done) + (if done.len() == 0 {
            Seq::<char>::empty()
        } else {
            seq![',']
        }) + quoted(k) + seq![':'] + quoted(v),
{
    let m = done.push((k, v));
    assert(m.drop_last() =~= done);
    if done.len() == 0 {
        assert(render_str_members(done) + Seq::<char>::empty() + quoted(k) + seq![':'] + quoted(v)
            =~= quoted(k) + seq![':'] + quoted(v));
    }
}

/// Appends the separator, if any member came before, and the quoted key with its colon.
fn push_key(out: &mut String, first: bool, key: &str)
    ensures
        final(out)@ == old(out)@ + (if first {
            Seq::<char>::empty()
        } else {
            seq![',']
        }) + quoted(key@) + seq![':'],
{
    let ghost start = out@;
    if !first {
        push_char(out, ',');
    }
    push_quoted(out, key);
    push_char(out, ':');
    proof {
        if first {
            assert(start + Seq::<char>::empty() =~= start);
        }
    }
}

/// Appends the environment variables as a JSON object of strings.
fn push_env(out: &mut String, v: &Vec<(String, String)>)
    ensures
        final(out)@ == old(out)@ + render_value(JsonModel::StrMap(env_pairs(v@))),
{
    let ghost start = out@;
    push_char(out, '{');
    let mut i: usize = 0;
    while i < v.len()
        invariant
            i <= v@.len(),
            out@ == start + seq!['{'] + render_str_members(env_pairs(v@).subrange(0, i as int)),
        decreases v@.len() - i,
    {
        let ghost done = env_pairs(v@).subrange(0, i as int);
        let name = v[i].0.as_str();
        let value = v[i].1.as_str();
        if i > 0 {
            push_char(out, ',');
        }
        push_quoted(out, name);
        push_char(out, ':');
        push_quoted(out, value);
        proof {
            assert(env_pairs(v@).subrange(0, i + 1) =~= done.push((name@, value@)));
            lemma_str_members_push(done, name@, value@);
            if i == 0 {
                assert(start + seq!['{'] + render_str_members(done) + seq!['"'] =~= start
                    + seq!['{'] + render_str_members(done) + Seq::<char>::empty() + seq!['"']);
            }
        }
        i = i + 1;
    }
    push_char(out, '}');
    proof {
        assert(env_pairs(v@).subrange(0, v@.len() as int) =~= env_pairs(v@));
    }
}

/// Appends the member of a text field unless it is left out; returns whether no member has
/// been written so far.
fn push_text_field(
    out: &mut String,
    first: bool,
    key: &str,
    f: &Field<String>,
    Ghost(prefix): Ghost<Seq<char>>,
    Ghost(done): Ghost<Seq<(Seq<char>, JsonModel)>>,
) -> (still_first: bool)
    requires
        first == (done.len() == 0),
        old(out)@ == prefix + render_members(done),
    ensures
        final(out)@ == prefix + render_members(done + text_member(key@, *f)),
        still_first == ((done + text_member(key@, *f)).len() == 0),
{
    match f {
        Field::Unset => {
            assert(done + text_member(key@, *f) =~= done);
            first
        },
        Field::Null => {
            push_key(out, first, key);
            out.append("null");
            proof {
                reveal_strlit("null");
                assert(done + text_member(key@, *f) =~= done.push((key@, JsonModel::Null)));
                lemma_members_push(done, key@, JsonModel::Null);
            }
            false
        },
        Field::Value(s) => {
            push_key(out, first, key);
            push_quoted(out, s.as_str());
            proof {
                assert(done + text_member(key@, *f) =~= done.push((key@, JsonModel::Str(s@))));
                lemma_members_push(done, key@, JsonModel::Str(s@));
            }
            false
        },
    }
}

/// The JSON body of a changeset: a field left out has no member, a cleared field is written
/// as null, and a set field as its value.
pub fn encode_changeset(c: &StreamChangeset) -> (r: String)
    requires
        c.well_formed(),
    ensures
        r@ == render_object(changeset_members(*c)),
{
    let mut out = String::from_str("{");
    let ghost prefix: Seq<char> = seq!['{'];
    proof {
        reveal_strlit("{");
        assert(out@ =~= prefix + render_members(Seq::empty()));
    }
    let ghost done: Seq<(Seq<char>, JsonModel)> = live_member(c.live);
    let mut first = true;
    match c.live {
        Some(b) => {
            push_key(&mut out, true, "live");
            if b {
                out.append("true");
            } else {
                out.append("false");
            }
            proof {
                reveal_strlit("true");
                reveal_strlit("false");
                assert(done =~= Seq::<(Seq<char>, JsonModel)>::empty().push(
                    ("live"@, JsonModel::Bool(b)),
                ));
                lemma_members_push(Seq::empty(), "live"@, JsonModel::Bool(b));
                assert(render_members(Seq::<(Seq<char>, JsonModel)>::empty()) =~= Seq::empty());
                assert(out@ =~= prefix + render_members(done));
            }
            first = false;
        },
        None => {
            assert(out@ =~= prefix + render_members(done));
        },
    }
    first = push_text_field(&mut out, first, "title", &c.title, Ghost(prefix), Ghost(done));
    let ghost done = done + text_member("title"@, c.title);
    first = push_text_field(
        &mut out,
        first,
        "term_type",
        &c.term_type,
        Ghost(prefix),
        Ghost(done),
    );
    let ghost done = done + text_member("term_type"@, c.term_type);
    first = push_text_field(
        &mut out,
        first,
        "term_version",
        &c.term_version,
        Ghost(prefix),
        Ghost(done),
    );
    let ghost done = done + text_member("term_version"@, c.term_version);
    first = push_text_field(&mut out, first, "shell", &c.shell, Ghost(prefix), Ghost(done));
    let ghost done = done + text_member("shell"@, c.shell);
    match &c.env {
        Field::Unset => {
            assert(done + env_member(c.env) =~= done);
        },
        Field::Null => {
            push_key(&mut out, first, "env");
            out.append("null");
            proof {
                reveal_strlit("null");
                assert(done + env_member(c.env) =~= done.push(("env"@, JsonModel::Null)));
                lemma_members_push(done, "env"@, JsonModel::Null);
            }
        },
        Field::Value(v) => {
            push_key(&mut out, first, "env");
            push_env(&mut out, v);
            proof {
                let m = JsonModel::StrMap(env_pairs(v@));
                assert(done + env_member(c.env) =~= done.push(("env"@, m)));
                lemma_members_push(done, "env"@, m);
            }
        },
    }
    let ghost done = done + env_member(c.env);
    push_char(&mut out, '}');
    proof {
        assert(done =~= changeset_members(*c));
    }
    out
}

} // verus!
