use vstd::prelude::*;

verus! {

/// Upper-case form of a string, as Unicode defines it.
pub uninterp spec fn upper_of(s: Seq<char>) -> Seq<char>;

/// Relies on `str::to_uppercase`: the result depends on the characters alone.
#[verifier::external_body]
fn to_upper(s: &str) -> (r: String)
    ensures
        r@ == upper_of(s@),
{
    s.to_uppercase()
}

/// The values that the `{name}` tokens of a template stand for.
pub struct Placeholders {
    pub filename: String,
    pub workspace: String,
    pub language: String,
    pub base_icons_url: String,
}

/// Index of the first `}` in `t` at or after `j`, or `t.len()` if there is none.
pub open spec fn close_from(t: Seq<char>, j: int) -> int
    decreases t.len() - j,
{
    if j < 0 || j >= t.len() {
        t.len() as int
    } else if t[j] == '}' {
        j
    } else {
        close_from(t, j + 1)
    }
}

/// Whether a token name carries the upper-case suffix `:u`.
pub open spec fn has_upper_suffix(name: Seq<char>) -> bool {
    name.len() >= 2 && name[name.len() - 2] == ':' && name[name.len() - 1] == 'u'
}

impl Placeholders {
    /// The value of a plain token name, if the name is recognized.
    pub open spec fn base_value(&self, name: Seq<char>) -> Option<Seq<char>> {
        if name == "filename"@ {
            Some(self.filename@)
        } else if name == "workspace"@ {
            Some(self.workspace@)
        } else if name == "language"@ {
            Some(self.language@)
        } else if name == "base_icons_url"@ {
            Some(self.base_icons_url@)
        } else {
            None
        }
    }

    /// What a token `{name}` renders to: the named value, or for `{name:u}` the
    /// upper-cased named value; `None` for a name that is not recognized.
    pub open spec fn token_value(&self, name: Seq<char>) -> Option<Seq<char>> {
        match self.base_value(name) {
            Some(v) => Some(v),
            None => if has_upper_suffix(name) {
                match self.base_value(name.subrange(0, name.len() - 2)) {
                    Some(v) => Some(upper_of(v)),
                    None => None,
                }
            } else {
                None
            },
        }
    }

    /// Rendering of `t` from position `i` on: each recognized token is replaced by
    /// its value, every other character is kept.
    pub open spec fn render_from(&self, t: Seq<char>, i: int) -> Seq<char>
        decreases t.len() - i,
    {
        if i < 0 || i >= t.len() {
            Seq::empty()
        } else {
            let k = close_from(t, i + 1);
            if t[i] == '{' && i < k < t.len() && self.token_value(t.subrange(i + 1, k)) is Some {
                self.token_value(t.subrange(i + 1, k))->0 + self.render_from(t, k + 1)
            } else {
                seq![t[i]] + self.render_from(t, i + 1)
            }
        }
    }

    pub open spec fn rendered(&self, t: Seq<char>) -> Seq<char> {
        self.render_from(t, 0)
    }

    pub fn new(filename: String, workspace: String, language: String, base_icons_url: String) -> (r: Self)
        ensures
            r.filename == filename,
            r.workspace == workspace,
            r.language == language,
            r.base_icons_url == base_icons_url,
    {
        Placeholders { filename, workspace, language, base_icons_url }
    }
}

impl Placeholders {
    /// The value of the plain token name `t[from..to]`.
    fn lookup_base(&self, t: &str, from: usize, to: usize) -> (r: Option<String>)
        requires
            from <= to <= t@.len(),
        ensures
            match r {
                Some(v) => self.base_value(t@.subrange(from as int, to as int)) == Some(v@),
                None => self.base_value(t@.subrange(from as int, to as int)) is None,
            },
    {
        if spells(t, from, to, "filename") {
            Some(self.filename.clone())
        } else if spells(t, from, to, "workspace") {
            Some(self.workspace.clone())
        } else if spells(t, from, to, "language") {
            Some(self.language.clone())
        } else if spells(t, from, to, "base_icons_url") {
            Some(self.base_icons_url.clone())
        } else {
            None
        }
    }

    /// The value that the token named `t[from..to]` renders to.
    fn lookup_token(&self, t: &str, from: usize, to: usize) -> (r: Option<String>)
        requires
            from <= to <= t@.len(),
        ensures
            match r {
                Some(v) => self.token_value(t@.subrange(from as int, to as int)) == Some(v@),
                None => self.token_value(t@.subrange(from as int, to as int)) is None,
            },
    {
        let ghost name = t@.subrange(from as int, to as int);
        match self.lookup_base(t, from, to) {
            Some(v) => Some(v),
            None => {
                if to - from >= 2 && t.get_char(to - 2) == ':' && t.get_char(to - 1) == 'u' {
                    assert(has_upper_suffix(name));
                    assert(name.subrange(0, name.len() - 2) =~= t@.subrange(from as int, to - 2));
                    match self.lookup_base(t, from, to - 2) {
                        Some(v) => Some(to_upper(v.as_str())),
                        None => None,
                    }
                } else {
                    None
                }
            },
        }
    }

    /// Replaces each recognized `{name}` token of `template` by its value and each
    /// `{name:u}` token by its upper-cased value; everything else is kept as it is.
    pub fn render(&self, template: &str) -> (r: String)
        ensures
            r@ == self.rendered(template@),
    {
        let ghost t = template@;
        let n = template.unicode_len();
        let mut out = String::new();
        let mut lit: usize = 0;
        let mut i: usize = 0;
        assert(t.subrange(0, 0) =~= Seq::<char>::empty());
        assert(out@ + t.subrange(0, 0) =~= Seq::<char>::empty());
        while i < n
            invariant
                n == t.len(),
                t == template@,
                lit <= i <= n,
                self.rendered(t) == out@ + t.subrange(lit as int, i as int) + self.render_from(t, i as int),
            decreases n - i,
        {
            let c = template.get_char(i);
            let mut replaced = false;
            if c == '{' {
                let mut k: usize = i + 1;
                while k < n && template.get_char(k) != '}'
                    invariant
                        n == t.len(),
                        t == template@,
                        i < k <= n,
                        close_from(t, i + 1) == close_from(t, k as int),
                    decreases n - k,
                {
                    k = k + 1;
                }
                assert(close_from(t, i + 1) == k);
                if k < n {
                    match self.lookup_token(template, i + 1, k) {
                        Some(v) => {
                            let ghost before = out@;
                            let ghost pending = t.subrange(lit as int, i as int);
                            assert(self.render_from(t, i as int) == v@ + self.render_from(t, k + 1));
                            out.append(template.substring_char(lit, i));
                            out.append(v.as_str());
                            assert(out@ == before + pending + v@);
                            i = k + 1;
                            lit = i;
                            assert(t.subrange(lit as int, i as int) =~= Seq::<char>::empty());
                            assert(self.rendered(t) =~= out@ + t.subrange(lit as int, i as int)
                                + self.render_from(t, i as int));
                            replaced = true;
                        },
                        None => {},
                    }
                }
            }
            if !replaced {
                let ghost before = out@;
                assert(self.render_from(t, i as int) == seq![t[i as int]] + self.render_from(t, i + 1));
                assert(t.subrange(lit as int, i + 1) =~= t.subrange(lit as int, i as int) + seq![t[i as int]]);
                i = i + 1;
                assert(self.rendered(t) =~= out@ + t.subrange(lit as int, i as int)
                    + self.render_from(t, i as int));
            }
        }
        let ghost before = out@;
        out.append(template.substring_char(lit, n));
        assert(self.render_from(t, n as int) =~= Seq::<char>::empty());
        assert(out@ =~= self.rendered(t));
        out
    }
}

proof fn lemma_close_at(t: Seq<char>, j: int, k: int)
    requires
        0 <= j <= k < t.len(),
        t[k] == '}',
        forall|m: int| j <= m < k ==> t[m] != '}',
    ensures
        close_from(t, j) == k,
    decreases k - j,
{
    if j < k {
        lemma_close_at(t, j + 1, k);
    }
}

proof fn lemma_literal_run(p: &Placeholders, t: Seq<char>, j: int, k: int)
    requires
        0 <= j <= k < t.len(),
        forall|m: int| j <= m <= k ==> t[m] != '{',
    ensures
        p.render_from(t, j) == t.subrange(j, k + 1) + p.render_from(t, k + 1),
    decreases k - j,
{
    if j < k {
        lemma_literal_run(p, t, j + 1, k);
        assert(t.subrange(j, k + 1) =~= seq![t[j]] + t.subrange(j + 1, k + 1));
    } else {
        assert(t.subrange(j, k + 1) =~= seq![t[j]]);
    }
}

/// A token `{name}` whose name is not recognized (and holds no brace) is left in
/// the output exactly as written, and rendering goes on right after it.
pub proof fn lemma_unknown_token_kept(p: &Placeholders, t: Seq<char>, i: int, k: int)
    requires
        0 <= i < k < t.len(),
        t[i] == '{',
        t[k] == '}',
        forall|m: int| i < m < k ==> t[m] != '{' && t[m] != '}',
        p.token_value(t.subrange(i + 1, k)) is None,
    ensures
        p.render_from(t, i) == t.subrange(i, k + 1) + p.render_from(t, k + 1),
{
    lemma_close_at(t, i + 1, k);
    lemma_literal_run(p, t, i + 1, k);
    assert(t.subrange(i, k + 1) =~= seq![t[i]] + t.subrange(i + 1, k + 1));
}

proof fn lemma_close_shift(x: Seq<char>, y: Seq<char>, m: int)
    requires
        0 <= m <= y.len(),
    ensures
        close_from(x + y, x.len() + m) == x.len() + close_from(y, m),
    decreases y.len() - m,
{
    if m < y.len() {
        assert((x + y)[x.len() + m] == y[m]);
        lemma_close_shift(x, y, m + 1);
    }
}

proof fn lemma_render_shift(p: &Placeholders, x: Seq<char>, y: Seq<char>, j: int)
    requires
        0 <= j <= y.len(),
    ensures
        p.render_from(x + y, x.len() + j) == p.render_from(y, j),
    decreases y.len() - j,
{
    let t = x + y;
    let i = x.len() + j;
    if j < y.len() {
        let k = close_from(y, j + 1);
        lemma_close_shift(x, y, j + 1);
        assert(close_from(t, i + 1) == x.len() + k);
        assert(t[i] == y[j]);
        if j < k < y.len() {
            assert(t.subrange(i + 1, x.len() + k) =~= y.subrange(j + 1, k));
        }
        if y[j] == '{' && j < k < y.len() && p.token_value(y.subrange(j + 1, k)) is Some {
            lemma_render_shift(p, x, y, k + 1);
        } else {
            lemma_render_shift(p, x, y, j + 1);
        }
    }
}

/// In a template made of a text without `{`, then a token `{name}` whose name is
/// not recognized and holds no brace, then any rest, the text and the token come
/// out as written, followed by the rendering of the rest.
pub proof fn lemma_unknown_token_kept_in_template(
    p: &Placeholders,
    before: Seq<char>,
    name: Seq<char>,
    rest: Seq<char>,
)
    requires
        forall|m: int| 0 <= m < before.len() ==> before[m] != '{',
        forall|m: int| 0 <= m < name.len() ==> name[m] != '{' && name[m] != '}',
        p.token_value(name) is None,
    ensures
        p.rendered(before + (seq!['{'] + name + seq!['}']) + rest) == before + (seq!['{'] + name
            + seq!['}']) + p.rendered(rest),
{
    let token = seq!['{'] + name + seq!['}'];
    let head = before + token;
    let t = head + rest;
    let i = before.len() as int;
    let k = i + name.len() + 1;
    assert(t.subrange(i + 1, k) =~= name);
    assert forall|m: int| i < m < k implies t[m] != '{' && t[m] != '}' by {
        assert(t[m] == name[m - i - 1]);
    }
    assert(t[i] == '{');
    assert(t[k] == '}');
    lemma_unknown_token_kept(p, t, i, k);
    if i > 0 {
        assert forall|m: int| 0 <= m <= i - 1 implies t[m] != '{' by {
            assert(t[m] == before[m]);
        }
        lemma_literal_run(p, t, 0, i - 1);
    }
    lemma_render_shift(p, head, rest, 0);
    assert(t.subrange(0, i) + t.subrange(i, k + 1) =~= head);
    assert(t.subrange(0, i) =~= before);
    assert(t.subrange(i, k + 1) =~= token);
}

/// Whether `t[from..to]` spells out `key`.
fn spells(t: &str, from: usize, to: usize, key: &str) -> (r: bool)
    requires
        from <= to <= t@.len(),
    ensures
        r == (t@.subrange(from as int, to as int) == key@),
{
    let n = key.unicode_len();
    if to - from != n {
        return false;
    }
    let mut j: usize = 0;
    while j < n
        invariant
            n == key@.len(),
            to - from == n,
            from <= to <= t@.len(),
            j <= n,
            forall|m: int| 0 <= m < j ==> t@[from + m] == key@[m],
        decreases n - j,
    {
        if t.get_char(from + j) != key.get_char(j) {
            assert(t@.subrange(from as int, to as int)[j as int] != key@[j as int]);
            return false;
        }
        j = j + 1;
    }
    assert(t@.subrange(from as int, to as int) =~= key@);
    true
}

} // verus!
