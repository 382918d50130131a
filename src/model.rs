use crate::field::{
    descriptor_field, is_field_descriptor, reports, FieldDefinition, FieldDefinitionError,
    FieldModel,
};
use crate::field::FieldVisibility;
use crate::text::{char_to_lower, char_to_upper, is_whitespace_char, lower_char, upper_char};
use vstd::prelude::*;
use vstd::string::*;

verus! {

/// `s` with its first character replaced by its uppercase mapping.
pub open spec fn upper_first(s: Seq<char>) -> Seq<char> {
    if s.len() == 0 {
        s
    } else {
        upper_char(s[0]) + s.drop_first()
    }
}

/// `s` with its first character replaced by its lowercase mapping.
pub open spec fn lower_first(s: Seq<char>) -> Seq<char> {
    if s.len() == 0 {
        s
    } else {
        lower_char(s[0]) + s.drop_first()
    }
}

/// The field lines of a model, each indented and ended by a line break.
pub open spec fn field_block(fs: Seq<FieldModel>) -> Seq<char>
    decreases fs.len(),
{
    if fs.len() == 0 {
        Seq::<char>::empty()
    } else {
        field_block(fs.drop_last()) + "    "@ + fs.last().line() + "\n"@
    }
}

/// The text of a model's structure declaration.
pub open spec fn render(m: ModelView) -> Seq<char> {
    "struct "@ + m.class_name + " {\n"@ + field_block(m.fields) + "}\n"@
}

/// Why a model could not be assembled.
#[derive(Debug, PartialEq, Eq)]
pub enum ModelError {
    /// The model name is empty.
    InvalidModelName,
    /// The descriptor at `index`, the first one refused, and why.
    Field { index: usize, error: FieldDefinitionError },
}

/// A model: the names derived from the model name and its fields in order.
#[derive(Debug)]
pub struct ModelData {
    class_name: String,
    file_name: String,
    table_name: String,
    field_data: Vec<FieldDefinition>,
}

/// The abstract value of a [`ModelData`].
pub struct ModelView {
    pub class_name: Seq<char>,
    pub file_name: Seq<char>,
    pub table_name: Seq<char>,
    pub fields: Seq<FieldModel>,
}

/// The model that `new` builds from a name, a table and fields.
pub open spec fn model_of(name: Seq<char>, table: Seq<char>, fields: Seq<FieldModel>) -> ModelView {
    ModelView {
        class_name: upper_first(name),
        file_name: lower_first(name),
        table_name: table,
        fields,
    }
}

/// `i` is the first descriptor of `ds` that is not a valid field descriptor.
pub open spec fn first_invalid(ds: Seq<String>, i: int) -> bool {
    &&& 0 <= i < ds.len()
    &&& !is_field_descriptor(ds[i]@)
    &&& forall|j: int| 0 <= j < i ==> is_field_descriptor(#[trigger] ds[j]@)
}

/// The fields that valid descriptors stand for.
pub open spec fn descriptor_fields(ds: Seq<String>) -> Seq<FieldModel> {
    ds.map_values(|d: String| descriptor_field(d@))
}

/// The concatenation of `mapped` and all of `s` but its first character.
pub fn replace_first(mapped: &str, s: &str) -> (r: String)
    requires
        s@.len() > 0,
    ensures
        r@ == mapped@ + s@.drop_first(),
{
    let mut out = String::from_str(mapped);
    let n = s.unicode_len();
    out.append(s.substring_char(1, n));
    assert(s@.subrange(1, n as int) =~= s@.drop_first());
    out
}

impl View for ModelData {
    type V = ModelView;

    closed spec fn view(&self) -> ModelView {
        ModelView {
            class_name: self.class_name@,
            file_name: self.file_name@,
            table_name: self.table_name@,
            fields: self.field_data@.map_values(|f: FieldDefinition| f@),
        }
    }
}

impl ModelData {
    /// Builds a model; the class name is the name with an uppercase first
    /// character, the file name the name with a lowercase first character.
    /// An empty name is refused.
    pub fn new(name: &str, table: &str, fields: Vec<FieldDefinition>) -> (r: Result<ModelData, ModelError>)
        ensures
            r is Err <==> name@.len() == 0,
            r is Err ==> r->Err_0 is InvalidModelName,
            r is Ok ==> r->Ok_0@ == model_of(
                name@,
                table@,
                fields@.map_values(|f: FieldDefinition| f@),
            ),
    {
        if name.unicode_len() == 0 {
            return Err(ModelError::InvalidModelName);
        }
        let class_name = Self::first_character_to_upper(name);
        let file_name = Self::first_character_to_lower(name);
        Ok(ModelData { class_name, file_name, table_name: table.to_owned(), field_data: fields })
    }

    /// Reads each descriptor in order and builds the model from the fields;
    /// stops at the first descriptor that is refused.
    pub fn from_descriptors(name: &str, table: &str, descriptors: &Vec<String>) -> (r: Result<
        ModelData,
        ModelError,
    >)
        ensures
            name@.len() == 0 ==> r matches Err(ModelError::InvalidModelName),
            name@.len() > 0 && (forall|i: int|
                0 <= i < descriptors@.len() ==> is_field_descriptor(#[trigger] descriptors@[i]@))
                ==> r is Ok && r->Ok_0@ == model_of(name@, table@, descriptor_fields(descriptors@)),
            name@.len() > 0 && !(forall|i: int|
                0 <= i < descriptors@.len() ==> is_field_descriptor(#[trigger] descriptors@[i]@))
                ==> r is Err && match r->Err_0 {
                ModelError::Field { index, error } => first_invalid(descriptors@, index as int)
                    && reports(error, descriptors@[index as int]@),
                _ => false,
            },
    {
        if name.unicode_len() == 0 {
            return Err(ModelError::InvalidModelName);
        }
        let n = descriptors.len();
        let mut fields: Vec<FieldDefinition> = Vec::new();
        let mut i: usize = 0;
        while i < n
            invariant
                n == descriptors@.len(),
                name@.len() > 0,
                i <= n,
                forall|j: int| 0 <= j < i ==> is_field_descriptor(#[trigger] descriptors@[j]@),
                fields@.map_values(|f: FieldDefinition| f@) == descriptor_fields(
                    descriptors@.take(i as int),
                ),
            decreases n - i,
        {
            match FieldDefinition::from_str(descriptors[i].as_str()) {
                Ok(f) => {
                    let ghost prev = fields@;
                    fields.push(f);
                    assert(fields@.map_values(|f: FieldDefinition| f@) =~= descriptor_fields(
                        descriptors@.take(i + 1),
                    )) by {
                        assert(fields@ == prev.push(f));
                        assert(fields@.map_values(|f: FieldDefinition| f@) =~= prev.map_values(
                            |f: FieldDefinition| f@,
                        ).push(f@));
                        assert(descriptors@.take(i + 1) =~= descriptors@.take(i as int).push(
                            descriptors@[i as int],
                        ));
                    }
                },
                Err(e) => {
                    assert(first_invalid(descriptors@, i as int));
                    return Err(ModelError::Field { index: i, error: e });
                },
            }
            i = i + 1;
        }
        assert(descriptors@.take(n as int) =~= descriptors@);
        Self::new(name, table, fields)
    }

    /// `characters` with its first character in uppercase.
    pub fn first_character_to_upper(characters: &str) -> (r: String)
        ensures
            r@ == upper_first(characters@),
    {
        if characters.unicode_len() == 0 {
            return String::new();
        }
        let mapped = char_to_upper(characters.get_char(0));
        replace_first(mapped.as_str(), characters)
    }

    /// `characters` with its first character in lowercase.
    pub fn first_character_to_lower(characters: &str) -> (r: String)
        ensures
            r@ == lower_first(characters@),
    {
        if characters.unicode_len() == 0 {
            return String::new();
        }
        let mapped = char_to_lower(characters.get_char(0));
        replace_first(mapped.as_str(), characters)
    }

    pub fn class_name(&self) -> (r: &str)
        ensures
            r@ == self@.class_name,
    {
        self.class_name.as_str()
    }

    pub fn file_name(&self) -> (r: &str)
        ensures
            r@ == self@.file_name,
    {
        self.file_name.as_str()
    }

    pub fn table_name(&self) -> (r: &str)
        ensures
            r@ == self@.table_name,
    {
        self.table_name.as_str()
    }

    pub fn fields(&self) -> (r: &Vec<FieldDefinition>)
        ensures
            r@.map_values(|f: FieldDefinition| f@) == self@.fields,
    {
        &self.field_data
    }

    /// The structure declaration: a header naming the class, one indented
    /// line per field in order, and a closing line.
    pub fn to_string(&self) -> (r: String)
        ensures
            r@ == render(self@),
    {
        let mut out = String::from_str("struct ");
        out.append(self.class_name.as_str());
        out.append(" {\n");
        let n = self.field_data.len();
        let ghost fs = self@.fields;
        let mut i: usize = 0;
        assert(fs.take(0) =~= Seq::<FieldModel>::empty());
        while i < n
            invariant
                n == self.field_data@.len(),
                fs == self@.fields,
                i <= n,
                out@ == "struct "@ + self.class_name@ + " {\n"@ + field_block(fs.take(i as int)),
            decreases n - i,
        {
            let line = self.field_data[i].to_string();
            out.append("    ");
            out.append(line.as_str());
            out.append("\n");
            assert(fs.take(i + 1).drop_last() =~= fs.take(i as int));
            assert(fs[i as int] == self.field_data@[i as int]@);
            i = i + 1;
        }
        assert(fs.take(n as int) =~= fs);
        out.append("}\n");
        out
    }
}

/// A model together with the decision of where and whether to persist it.
#[derive(Debug)]
pub struct ModelDefinition {
    model_data: ModelData,
}

impl View for ModelDefinition {
    type V = ModelView;

    closed spec fn view(&self) -> ModelView {
        self.model_data@
    }
}

impl ModelDefinition {
    pub fn new(data: ModelData) -> (r: ModelDefinition)
        ensures
            r@ == data@,
    {
        ModelDefinition { model_data: data }
    }

    pub fn model_data(&self) -> (r: &ModelData)
        ensures
            r@ == self@,
    {
        &self.model_data
    }

    /// The text written for the model: its declaration and one more line break.
    pub fn to_string(&self) -> (r: String)
        ensures
            r@ == render(self@) + "\n"@,
    {
        let mut out = self.model_data.to_string();
        out.append("\n");
        out
    }
}

/// Uppercasing the first character is idempotent wherever the first
/// character of an uppercase mapping maps to itself.
pub proof fn lemma_upper_first_idempotent(x: Seq<char>)
    requires
        x.len() > 0 ==> upper_char(x[0]).len() > 0 && upper_char(upper_char(x[0])[0]) == seq![
            upper_char(x[0])[0],
        ],
    ensures
        upper_first(upper_first(x)) == upper_first(x),
{
    if x.len() > 0 {
        let u = upper_char(x[0]);
        let y = upper_first(x);
        assert(y[0] == u[0]);
        assert(seq![u[0]] + y.drop_first() =~= y);
    }
}

/// A field line holds no line break.
pub proof fn lemma_line_single(f: FieldModel)
    requires
        f.well_formed(),
    ensures
        forall|i: int| 0 <= i < f.line().len() ==> #[trigger] f.line()[i] != '\n',
{
    reveal_strlit("pub ");
    reveal_strlit(": ");
    reveal_strlit(",");
    assert(is_whitespace_char('\n'));
    assert forall|i: int| 0 <= i < f.line().len() implies #[trigger] f.line()[i] != '\n' by {
        let l = f.line();
        if l[i] == '\n' {
            let core = f.name + ": "@ + f.ty + ","@;
            let off: int = if f.visibility == FieldVisibility::Public { 4 } else { 0 };
            assert(l[i] == ("pub "@ + core)[i] || l[i] == core[i]);
            if off <= i {
                let j = i - off;
                assert(l[i] == core[j]);
                if j < f.name.len() {
                    assert(core[j] == f.name[j]);
                } else if j >= f.name.len() + 2 && j < f.name.len() + 2 + f.ty.len() {
                    assert(core[j] == f.ty[j - f.name.len() - 2]);
                }
            }
        }
    }
}

/// Different fields have different lines.
pub proof fn lemma_line_injective(f: FieldModel, g: FieldModel)
    requires
        f.well_formed(),
        g.well_formed(),
        f.line() == g.line(),
    ensures
        f == g,
{
    reveal_strlit("pub ");
    reveal_strlit(": ");
    reveal_strlit(",");
    let cf = f.name + ": "@ + f.ty + ","@;
    let cg = g.name + ": "@ + g.ty + ","@;
    if f.visibility == g.visibility {
        if f.visibility == FieldVisibility::Public {
            assert(f.line().subrange(4, f.line().len() as int) =~= cf);
            assert(g.line().subrange(4, g.line().len() as int) =~= cg);
        }
        assert(cf == cg);
        let k = f.name.len() as int;
        if k < g.name.len() {
            assert(cf[k] == ':');
            assert(cg[k] == g.name[k]);
        } else if g.name.len() < k {
            let m = g.name.len() as int;
            assert(cg[m] == ':');
            assert(cf[m] == f.name[m]);
        }
        assert(f.name =~= cf.subrange(0, k as int));
        assert(g.name =~= cg.subrange(0, k as int));
        assert(f.ty =~= cf.subrange(k + 2, cf.len() - 1));
        assert(g.ty =~= cg.subrange(k + 2, cg.len() - 1));
    } else {
        let (p, q) = if f.visibility == FieldVisibility::Public { (f, g) } else { (g, f) };
        let lp = "pub "@ + p.name + ": "@ + p.ty + ","@;
        let lq = q.name + ": "@ + q.ty + ","@;
        assert(lp == lq);
        let k = q.name.len() as int;
        if k <= 3 {
            assert(lq[k] == ':');
            assert(lp[k] == "pub "@[k]);
        } else {
            assert(lq[3] == q.name[3]);
            assert(lp[3] == ' ');
        }
    }
}

/// A text of two lines, each ended by a line break, determines the lines.
proof fn lemma_two_lines(a: Seq<char>, b: Seq<char>)
    requires
        forall|i: int| 0 <= i < a.len() ==> #[trigger] a[i] != '\n',
        forall|i: int| 0 <= i < b.len() ==> #[trigger] b[i] != '\n',
        "    "@ + a + "\n"@ + "    "@ + b + "\n"@ == "    "@ + b + "\n"@ + "    "@ + a + "\n"@,
    ensures
        a == b,
{
    reveal_strlit("    ");
    reveal_strlit("\n");
    let x = "    "@ + a + "\n"@ + "    "@ + b + "\n"@;
    let y = "    "@ + b + "\n"@ + "    "@ + a + "\n"@;
    let la = a.len() as int;
    let lb = b.len() as int;
    if la < lb {
        assert(x[4 + la] == '\n');
        assert(y[4 + la] == b[la]);
    } else if lb < la {
        assert(y[4 + lb] == '\n');
        assert(x[4 + lb] == a[lb]);
    }
    assert(a =~= x.subrange(4, 4 + la));
    assert(b =~= y.subrange(4, 4 + lb));
}

/// Rendering keeps the order of fields: a model with fields `f1, f2`
/// renders as the same model with `f2, f1` only where the two are equal.
pub proof fn lemma_render_keeps_order(m: ModelView, f1: FieldModel, f2: FieldModel)
    requires
        f1.well_formed(),
        f2.well_formed(),
    ensures
        render(ModelView { class_name: m.class_name, file_name: m.file_name, table_name: m.table_name, fields: seq![f1, f2] })
            == render(ModelView { class_name: m.class_name, file_name: m.file_name, table_name: m.table_name, fields: seq![f2, f1] }) ==> f1 == f2,
{
    let a = ModelView { class_name: m.class_name, file_name: m.file_name, table_name: m.table_name, fields: seq![f1, f2] };
    let b = ModelView { class_name: m.class_name, file_name: m.file_name, table_name: m.table_name, fields: seq![f2, f1] };
    if render(a) == render(b) {
        let head = "struct "@ + m.class_name + " {\n"@;
        let x = "    "@ + f1.line() + "\n"@ + "    "@ + f2.line() + "\n"@;
        let y = "    "@ + f2.line() + "\n"@ + "    "@ + f1.line() + "\n"@;
        assert(seq![f1, f2].drop_last() =~= seq![f1]);
        assert(seq![f2, f1].drop_last() =~= seq![f2]);
        assert(seq![f1].drop_last() =~= Seq::<FieldModel>::empty());
        assert(seq![f2].drop_last() =~= Seq::<FieldModel>::empty());
        assert(field_block(Seq::<FieldModel>::empty()) == Seq::<char>::empty());
        assert(field_block(seq![f1]) =~= "    "@ + f1.line() + "\n"@);
        assert(field_block(seq![f2]) =~= "    "@ + f2.line() + "\n"@);
        assert(seq![f1, f2].last() == f2);
        assert(seq![f2, f1].last() == f1);
        assert(field_block(seq![f1, f2]) == field_block(seq![f1]) + "    "@ + f2.line() + "\n"@);
        assert(field_block(seq![f2, f1]) == field_block(seq![f2]) + "    "@ + f1.line() + "\n"@);
        assert(field_block(seq![f1, f2]) =~= x);
        assert(field_block(seq![f2, f1]) =~= y);
        assert(render(a) =~= head + x + "}\n"@);
        assert(render(b) =~= head + y + "}\n"@);
        let h = head.len() as int;
        assert(x.len() == y.len());
        assert(x =~= render(a).subrange(h, h + x.len() as int));
        assert(y =~= render(b).subrange(h, h + y.len() as int));
        lemma_line_single(f1);
        lemma_line_single(f2);
        lemma_two_lines(f1.line(), f2.line());
        lemma_line_injective(f1, f2);
    }
}

} // verus!
