use vstd::prelude::*;

verus! {

/// What a template describes, as mathematical values.
pub ghost struct TemplateSpec {
    pub path: Seq<char>,
    pub label: Seq<char>,
    pub allow_multiple: bool,
}

/// How to open a window of one kind: the content it shows, the label its
/// instances are named after, and whether several may be open at once.
pub struct WindowTemplate {
    pub path: String,
    pub label: String,
    pub allow_multiple: bool,
}

impl View for WindowTemplate {
    type V = TemplateSpec;

    open spec fn view(&self) -> TemplateSpec {
        TemplateSpec { path: self.path@, label: self.label@, allow_multiple: self.allow_multiple }
    }
}

impl WindowTemplate {
    pub fn new(path: &str, label: &str, allow_multiple: bool) -> (r: WindowTemplate)
        ensures
            r@ == (TemplateSpec { path: path@, label: label@, allow_multiple }),
    {
        WindowTemplate {
            path: String::from_str(path),
            label: String::from_str(label),
            allow_multiple,
        }
    }
}

/// The window kinds that can be opened, each with its template. A kind
/// appears at most once.
pub struct TemplateTable {
    kinds: Vec<String>,
    templates: Vec<WindowTemplate>,
    model: Ghost<Map<Seq<char>, TemplateSpec>>,
}

impl View for TemplateTable {
    type V = Map<Seq<char>, TemplateSpec>;

    closed spec fn view(&self) -> Map<Seq<char>, TemplateSpec> {
        self.model@
    }
}

impl TemplateTable {
    pub closed spec fn wf(&self) -> bool {
        &&& self.kinds.len() == self.templates.len()
        &&& forall|i: int, j: int|
            0 <= i < j < self.kinds.len() ==> #[trigger] self.kinds[i]@ != #[trigger] self.kinds[j]@
        &&& forall|i: int|
            0 <= i < self.kinds.len() ==> self.model@.contains_key(#[trigger] self.kinds[i]@)
                && self.model@[self.kinds[i]@] == self.templates[i]@
        &&& forall|k: Seq<char>|
            #[trigger] self.model@.contains_key(k) ==> exists|i: int|
                0 <= i < self.kinds.len() && #[trigger] self.kinds[i]@ == k
    }

    /// A table with no kinds.
    pub fn new() -> (r: TemplateTable)
        ensures
            r.wf(),
            r@ == Map::<Seq<char>, TemplateSpec>::empty(),
    {
        TemplateTable { kinds: Vec::new(), templates: Vec::new(), model: Ghost(Map::empty()) }
    }

    /// Where `kind` stands in the table, if it does.
    fn position(&self, kind: &String) -> (r: Option<usize>)
        requires
            self.wf(),
        ensures
            r is None <==> !self@.contains_key(kind@),
            r matches Some(i) ==> i < self.kinds.len() && self.kinds[i as int]@ == kind@,
    {
        let mut i: usize = 0;
        while i < self.kinds.len()
            invariant
                self.wf(),
                i <= self.kinds.len(),
                forall|j: int| 0 <= j < i ==> self.kinds[j]@ != kind@,
            decreases self.kinds.len() - i,
        {
            if self.kinds[i].eq(kind) {
                return Some(i);
            }
            i = i + 1;
        }
        None
    }

    /// Adds `template` under `kind`. A kind that is already present is
    /// refused (`false`), and the table is then left as it was.
    pub fn add(&mut self, kind: String, template: WindowTemplate) -> (r: bool)
        requires
            old(self).wf(),
        ensures
            final(self).wf(),
            r == !old(self)@.contains_key(kind@),
            r ==> final(self)@ == old(self)@.insert(kind@, template@),
            !r ==> final(self)@ == old(self)@,
    {
        if self.position(&kind).is_some() {
            return false;
        }
        let ghost k = kind@;
        let ghost t = template@;
        self.model = Ghost(self.model@.insert(k, t));
        self.kinds.push(kind);
        self.templates.push(template);
        proof {
            let n = self.kinds.len() - 1;
            assert(self.kinds[n as int]@ == k);
            assert forall|q: Seq<char>| #[trigger] self.model@.contains_key(q) implies exists|i: int|
                0 <= i < self.kinds.len() && #[trigger] self.kinds[i]@ == q by {
                if q == k {
                    assert(self.kinds[n as int]@ == q);
                } else {
                    assert(old(self).model@.contains_key(q));
                    let i = choose|i: int| 0 <= i < old(self).kinds.len() && #[trigger] old(self).kinds[i]@ == q;
                    assert(self.kinds[i]@ == q);
                }
            }
        }
        true
    }

    /// The template of `kind`, if the table has one.
    pub fn resolve(&self, kind: &str) -> (r: Option<&WindowTemplate>)
        requires
            self.wf(),
        ensures
            r is None <==> !self@.contains_key(kind@),
            r matches Some(t) ==> t@ == self@[kind@],
    {
        let key = String::from_str(kind);
        match self.position(&key) {
            Some(i) => Some(&self.templates[i]),
            None => None,
        }
    }

    /// The two kinds the application ships with, each of which may have
    /// several windows open at once.
    pub fn standard() -> (r: TemplateTable)
        ensures
            r.wf(),
            r@ == map![
                "full-viewport"@ => TemplateSpec {
                    path: "apps/full-viewport/index.html"@,
                    label: "full-viewport"@,
                    allow_multiple: true,
                },
                "main-viewport-only"@ => TemplateSpec {
                    path: "apps/main-viewport-only/index.html"@,
                    label: "main-viewport-only"@,
                    allow_multiple: true,
                },
            ],
    {
        proof {
            reveal_strlit("full-viewport");
            reveal_strlit("main-viewport-only");
        }
        let mut table = TemplateTable::new();
        let full = WindowTemplate::new("apps/full-viewport/index.html", "full-viewport", true);
        table.add(String::from_str("full-viewport"), full);
        assert("full-viewport"@.len() != "main-viewport-only"@.len());
        assert(!table@.contains_key("main-viewport-only"@));
        let main = WindowTemplate::new(
            "apps/main-viewport-only/index.html",
            "main-viewport-only",
            true,
        );
        table.add(String::from_str("main-viewport-only"), main);
        assert(table@ =~= map![
            "full-viewport"@ => TemplateSpec {
                path: "apps/full-viewport/index.html"@,
                label: "full-viewport"@,
                allow_multiple: true,
            },
            "main-viewport-only"@ => TemplateSpec {
                path: "apps/main-viewport-only/index.html"@,
                label: "main-viewport-only"@,
                allow_multiple: true,
            },
        ]);
        table
    }
}

} // verus!
