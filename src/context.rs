use crate::text::{decimal, lemma_decimal_injective, push_decimal};
use vstd::prelude::*;
use vstd::string::*;

verus! {

/// A declared variable: its name, literal value and generated label.
#[derive(Debug, Clone)]
pub struct Variable {
    pub name: String,
    pub value: String,
    pub label: String,
}

/// The program's sections: text lines with their comments, and the data and
/// bss variables, each in order.
#[derive(Debug)]
pub struct Sections {
    pub text: Vec<(Option<String>, String)>,
    pub data: Vec<Variable>,
    pub bss: Vec<Variable>,
}

/// The symbol table: declared variables, the label counter and the externs.
#[derive(Debug)]
pub struct Context {
    pub sections: Sections,
    pub label_counter: usize,
    pub externs: Vec<String>,
}

/// The label generated from counter value `k`: `L` and `k` in decimal.
pub open spec fn label_name(k: nat) -> Seq<char> {
    "L"@ + decimal(k)
}

/// The extern list after a request for `name`: unchanged if `name` is there
/// already, else `name` appended.
pub open spec fn with_extern(list: Seq<Seq<char>>, name: Seq<char>) -> Seq<Seq<char>> {
    if list.contains(name) {
        list
    } else {
        list.push(name)
    }
}

/// The extern list after a run of requests, in order.
pub open spec fn with_externs(list: Seq<Seq<char>>, names: Seq<Seq<char>>) -> Seq<Seq<char>>
    decreases names.len(),
{
    if names.len() == 0 {
        list
    } else {
        with_extern(with_externs(list, names.drop_last()), names.last())
    }
}

impl Context {
    /// The data variables, in declaration order.
    pub open spec fn vars(&self) -> Seq<Variable> {
        self.sections.data@
    }

    /// The extern names, in first-request order.
    pub open spec fn extern_names(&self) -> Seq<Seq<char>> {
        self.externs@.map_values(|s: String| s@)
    }

    /// True when a variable of this name was declared.
    pub open spec fn declares(&self, name: Seq<char>) -> bool {
        exists|k: int| 0 <= k < self.vars().len() && #[trigger] self.vars()[k].name@ == name
    }

    /// The counter counts the variables; the `k`-th variable carries label
    /// `Lk`; names are unique, and so are externs.
    pub open spec fn wf(&self) -> bool {
        &&& self.label_counter == self.vars().len()
        &&& forall|k: int| 0 <= k < self.vars().len() ==> #[trigger] self.vars()[k].label@ == label_name(k as nat)
        &&& forall|j: int, k: int|
            0 <= j < k < self.vars().len() ==> #[trigger] self.vars()[j].name@ != #[trigger] self.vars()[k].name@
        &&& forall|j: int, k: int|
            0 <= j < k < self.extern_names().len() ==> #[trigger] self.extern_names()[j]
                != #[trigger] self.extern_names()[k]
    }

    /// An empty table; the counter starts at zero.
    pub fn new() -> (r: Self)
        ensures
            r.wf(),
            r.vars().len() == 0,
            r.extern_names().len() == 0,
            r.sections.text@.len() == 0,
            r.sections.bss@.len() == 0,
    {
        let r = Self {
            sections: Sections { text: Vec::new(), data: Vec::new(), bss: Vec::new() },
            label_counter: 0,
            externs: Vec::new(),
        };
        assert(r.extern_names().len() == 0);
        r
    }

    /// Declares a variable and returns its label. A new name gets the next
    /// label `L<counter>` and is appended to the data variables; a name
    /// declared before keeps its label, and nothing changes.
    pub fn add_variable(&mut self, name: &str, value: &str) -> (r: String)
        requires
            old(self).wf(),
            old(self).declares(name@) || old(self).label_counter < usize::MAX,
        ensures
            final(self).wf(),
            final(self).externs == old(self).externs,
            final(self).sections.text == old(self).sections.text,
            final(self).sections.bss == old(self).sections.bss,
            old(self).declares(name@) ==> {
                &&& final(self).vars() == old(self).vars()
                &&& final(self).label_counter == old(self).label_counter
                &&& exists|k: int|
                    0 <= k < old(self).vars().len() && #[trigger] old(self).vars()[k].name@ == name@
                        && r@ == old(self).vars()[k].label@
            },
            !old(self).declares(name@) ==> {
                &&& final(self).label_counter == old(self).label_counter + 1
                &&& r@ == label_name(old(self).label_counter as nat)
                &&& final(self).vars() == old(self).vars().push(final(self).vars().last())
                &&& final(self).vars().last().name@ == name@
                &&& final(self).vars().last().value@ == value@
                &&& final(self).vars().last().label@ == r@
            },
    {
        let key = String::from_str(name);
        let n = self.sections.data.len();
        let mut k: usize = 0;
        while k < n
            invariant
                n == self.vars().len(),
                k <= n,
                key@ == name@,
                self.wf(),
                forall|j: int| 0 <= j < k ==> #[trigger] self.vars()[j].name@ != name@,
            decreases n - k,
        {
            if self.sections.data[k].name == key {
                return self.sections.data[k].label.clone();
            }
            k = k + 1;
        }
        let mut label = String::from_str("L");
        push_decimal(&mut label, self.label_counter as u64);
        let var = Variable {
            name: String::from_str(name),
            value: String::from_str(value),
            label: label.clone(),
        };
        self.sections.data.push(var);
        self.label_counter = self.label_counter + 1;
        proof {
            reveal_strlit("L");
            assert(label@ =~= label_name(old(self).label_counter as nat));
            let vs = self.vars();
            assert(vs.len() == n + 1);
            assert forall|j: int, i: int| 0 <= j < i < vs.len() implies #[trigger] vs[j].name@ != #[trigger] vs[i].name@ by {
                if i < n {
                    assert(vs[j] == old(self).vars()[j]);
                    assert(vs[i] == old(self).vars()[i]);
                } else {
                    assert(vs[j] == old(self).vars()[j]);
                }
            }
            assert forall|i: int| 0 <= i < vs.len() implies #[trigger] vs[i].label@ == label_name(i as nat) by {
                if i < n {
                    assert(vs[i] == old(self).vars()[i]);
                }
            }
            assert(self.label_counter == vs.len());
            assert(self.extern_names() == old(self).extern_names());
        }
        label
    }

    /// Appends a rendered text line with its comment.
    pub fn add_instruction(&mut self, instruction: String, comment: Option<String>)
        ensures
            final(self).sections.text@ == old(self).sections.text@.push((comment, instruction)),
            final(self).sections.data == old(self).sections.data,
            final(self).sections.bss == old(self).sections.bss,
            final(self).label_counter == old(self).label_counter,
            final(self).externs == old(self).externs,
    {
        self.sections.text.push((comment, instruction));
    }

    /// Records an extern symbol; a symbol recorded before is not added again.
    pub fn add_extern(&mut self, name: &str)
        requires
            old(self).wf(),
        ensures
            final(self).wf(),
            final(self).extern_names() == with_extern(old(self).extern_names(), name@),
            final(self).sections == old(self).sections,
            final(self).label_counter == old(self).label_counter,
    {
        let key = String::from_str(name);
        let n = self.externs.len();
        let mut k: usize = 0;
        while k < n
            invariant
                n == self.extern_names().len(),
                n == self.externs@.len(),
                k <= n,
                key@ == name@,
                self.wf(),
                forall|j: int| 0 <= j < k ==> self.extern_names()[j] != name@,
            decreases n - k,
        {
            if self.externs[k] == key {
                assert(self.extern_names()[k as int] == name@);
                return;
            }
            k = k + 1;
        }
        assert(!self.extern_names().contains(name@)) by {
            if self.extern_names().contains(name@) {
                let j = choose|j: int| 0 <= j < n && self.extern_names()[j] == name@;
                assert(self.extern_names()[j] != name@);
            }
        }
        self.externs.push(String::from_str(name));
        assert(self.extern_names() =~= old(self).extern_names().push(name@));
    }

    /// The variable declared under `name`, if any.
    pub fn get_variable(&self, name: &str) -> (r: Option<&Variable>)
        requires
            self.wf(),
        ensures
            r is None <==> !self.declares(name@),
            r matches Some(v) ==> exists|k: int|
                0 <= k < self.vars().len() && #[trigger] self.vars()[k] == *v && v.name@ == name@,
    {
        let key = String::from_str(name);
        let n = self.sections.data.len();
        let mut k: usize = 0;
        while k < n
            invariant
                n == self.vars().len(),
                k <= n,
                key@ == name@,
                forall|j: int| 0 <= j < k ==> #[trigger] self.vars()[j].name@ != name@,
            decreases n - k,
        {
            if self.sections.data[k].name == key {
                return Some(&self.sections.data[k]);
            }
            k = k + 1;
        }
        None
    }

    /// The sections.
    pub fn get_sections(&self) -> (r: &Sections)
        ensures
            *r == self.sections,
    {
        &self.sections
    }

    /// The extern symbols, in first-request order.
    pub fn get_externs(&self) -> (r: &[String])
        ensures
            r@ == self.externs@,
    {
        self.externs.as_slice()
    }
}

/// Distinct counter values give distinct labels.
pub proof fn lemma_label_name_injective(a: nat, b: nat)
    requires
        label_name(a) == label_name(b),
    ensures
        a == b,
{
    reveal_strlit("L");
    assert(label_name(a).subrange(1, label_name(a).len() as int) =~= decimal(a));
    assert(label_name(b).subrange(1, label_name(b).len() as int) =~= decimal(b));
    lemma_decimal_injective(a, b);
}

/// The variables carry the labels `L0`, `L1`, ... in declaration order, and no
/// two of them share a label.
pub proof fn lemma_labels_in_order(c: Context)
    requires
        c.wf(),
    ensures
        forall|k: int| 0 <= k < c.vars().len() ==> #[trigger] c.vars()[k].label@ == label_name(k as nat),
        forall|j: int, k: int|
            0 <= j < k < c.vars().len() ==> #[trigger] c.vars()[j].label@ != #[trigger] c.vars()[k].label@,
{
    assert forall|j: int, k: int| 0 <= j < k < c.vars().len() implies #[trigger] c.vars()[j].label@
        != #[trigger] c.vars()[k].label@ by {
        if c.vars()[j].label@ == c.vars()[k].label@ {
            lemma_label_name_injective(j as nat, k as nat);
        }
    }
}

/// Requesting one extern any positive number of times gives the same list as
/// requesting it once.
pub proof fn lemma_extern_idempotent(list: Seq<Seq<char>>, name: Seq<char>, m: nat)
    requires
        m >= 1,
    ensures
        with_externs(list, Seq::new(m, |i: int| name)) == with_extern(list, name),
    decreases m,
{
    let names = Seq::new(m, |i: int| name);
    assert(names.last() == name);
    if m > 1 {
        assert(names.drop_last() =~= Seq::new((m - 1) as nat, |i: int| name));
        lemma_extern_idempotent(list, name, (m - 1) as nat);
        assert(with_extern(list, name).contains(name)) by {
            if !list.contains(name) {
                assert(list.push(name)[list.len() as int] == name);
            }
        }
    } else {
        assert(names.drop_last() =~= Seq::<Seq<char>>::empty());
        assert(with_externs(list, names.drop_last()) == list);
    }
}

/// A list built by extern requests keeps what it had in front, holds each
/// requested name, holds nothing else, and holds no name twice.
pub proof fn lemma_externs_unique(list: Seq<Seq<char>>, names: Seq<Seq<char>>)
    requires
        forall|j: int, k: int| 0 <= j < k < list.len() ==> list[j] != list[k],
    ensures
        with_externs(list, names).len() >= list.len(),
        with_externs(list, names).subrange(0, list.len() as int) == list,
        forall|k: int| 0 <= k < names.len() ==> with_externs(list, names).contains(#[trigger] names[k]),
        forall|x: Seq<char>|
            #[trigger] with_externs(list, names).contains(x) ==> list.contains(x) || names.contains(x),
        forall|j: int, k: int|
            0 <= j < k < with_externs(list, names).len() ==> with_externs(list, names)[j]
                != with_externs(list, names)[k],
    decreases names.len(),
{
    if names.len() > 0 {
        let prev = with_externs(list, names.drop_last());
        lemma_externs_unique(list, names.drop_last());
        let x = names.last();
        let cur = with_externs(list, names);
        assert(cur == with_extern(prev, x));
        if !prev.contains(x) {
            assert(cur == prev.push(x));
            assert(cur[prev.len() as int] == x);
            assert forall|j: int, k: int| 0 <= j < k < cur.len() implies cur[j] != cur[k] by {
                if k == prev.len() {
                    assert(cur[j] == prev[j]);
                    if prev[j] == x {
                        assert(prev.contains(x));
                    }
                }
            }
            assert(cur.subrange(0, list.len() as int) =~= prev.subrange(0, list.len() as int));
        }
        assert(cur.contains(x)) by {
            if prev.contains(x) {
            } else {
                assert(cur[prev.len() as int] == x);
            }
        }
        assert forall|k: int| 0 <= k < names.len() implies cur.contains(#[trigger] names[k]) by {
            if k < names.len() - 1 {
                assert(names[k] == names.drop_last()[k]);
                assert(prev.contains(names.drop_last()[k]));
                let i = choose|i: int| 0 <= i < prev.len() && prev[i] == names[k];
                assert(cur[i] == prev[i]);
            }
        }
        assert forall|y: Seq<char>| #[trigger] cur.contains(y) implies list.contains(y) || names.contains(y) by {
            let i = choose|i: int| 0 <= i < cur.len() && cur[i] == y;
            if i < prev.len() {
                assert(prev.contains(y));
                if names.drop_last().contains(y) {
                    let t = choose|t: int| 0 <= t < names.drop_last().len() && names.drop_last()[t] == y;
                    assert(names[t] == y);
                }
            } else {
                assert(names[names.len() - 1] == y);
            }
        }
    } else {
        assert(list.subrange(0, list.len() as int) =~= list);
    }
}

} // verus!
