use vstd::prelude::*;
use vstd::string::*;

verus! {

#[verifier::external_type_specification]
#[verifier::external_body]
pub struct ExPathBuf(std::path::PathBuf);

/// Settings for generating the environment struct of one function of a
/// deployment template.
#[derive(Debug)]
pub struct SamEnvConfig {
    pub template_path: std::path::PathBuf,
    pub package_name: String,
    pub output_path: String,
    pub output_filename: String,
    pub struct_name: String,
}

/// One resource of a deployment template, as far as generation reads it:
/// its `Properties.CodeUri`, if that is a string, and the names of its
/// `Properties.Environment.Variables`, if that is a mapping.
#[derive(Debug, Clone, PartialEq, Eq)]
pub struct TemplateResource {
    pub code_uri: Option<String>,
    pub env_var_names: Option<Vec<String>>,
}

/// Why no environment struct could be generated.
#[derive(Debug, Clone, Copy, PartialEq, Eq, Structural)]
pub enum SamEnvError {
    /// The template has no `Resources` mapping.
    MissingResources,
    /// Not exactly one resource belongs to the package; holds how many did.
    ResourceCount(usize),
}

/// `suffix` is a suffix of `s`.
pub open spec fn has_suffix(s: Seq<char>, suffix: Seq<char>) -> bool {
    suffix.len() <= s.len() && s.subrange(s.len() - suffix.len(), s.len() as int) == suffix
}

/// Relies on `str::ends_with` with a `&str` pattern: whether `pattern` is a
/// suffix of `s`.
#[verifier::external_body]
fn ends_with(s: &str, pattern: &str) -> (r: bool)
    ensures
        r == has_suffix(s@, pattern@),
{
    s.ends_with(pattern)
}

/// What `str::to_lowercase` returns for the characters `s`.
pub uninterp spec fn lower_of(s: Seq<char>) -> Seq<char>;

/// Relies on `str::to_lowercase`: the result depends on the characters alone.
#[verifier::external_body]
fn lowercase(s: &str) -> (r: String)
    ensures
        r@ == lower_of(s@),
{
    s.to_lowercase()
}

/// The resource belongs to package `package`: its code path ends with
/// `/{package}`.
pub open spec fn belongs_to(r: TemplateResource, package: Seq<char>) -> bool {
    match r.code_uri {
        Some(uri) => has_suffix(uri@, seq!['/'] + package),
        None => false,
    }
}

/// How many of `rs` belong to `package`.
pub open spec fn count_belonging(rs: Seq<TemplateResource>, package: Seq<char>) -> nat
    decreases rs.len(),
{
    if rs.len() == 0 {
        0
    } else {
        count_belonging(rs.drop_last(), package) + if belongs_to(rs.last(), package) {
            1nat
        } else {
            0nat
        }
    }
}

/// Whether `resource` belongs to package `package`.
pub fn resource_belongs_to(resource: &TemplateResource, package: &str) -> (r: bool)
    ensures
        r == belongs_to(*resource, package@),
{
    match &resource.code_uri {
        Some(uri) => {
            let mut pattern = String::from_str("/");
            pattern.append(package);
            proof {
                reveal_strlit("/");
                assert(pattern@ =~= seq!['/'] + package@);
            }
            ends_with(uri.as_str(), pattern.as_str())
        },
        None => false,
    }
}

/// Finds the one resource of `package`. `Ok(i)` exactly when one resource
/// belongs to it, `i` being that one; otherwise how many do.
pub fn select_resource(resources: &Vec<TemplateResource>, package: &str) -> (r: Result<
    usize,
    SamEnvError,
>)
    ensures
        r is Ok <==> count_belonging(resources@, package@) == 1,
        r matches Ok(i) ==> i < resources@.len() && belongs_to(resources@[i as int], package@),
        r matches Err(e) ==> e == SamEnvError::ResourceCount(
            count_belonging(resources@, package@) as usize,
        ),
{
    let mut count: usize = 0;
    let mut found: usize = 0;
    let mut i: usize = 0;
    while i < resources.len()
        invariant
            i <= resources@.len(),
            count == count_belonging(resources@.subrange(0, i as int), package@),
            count <= i,
            count > 0 ==> found < i && belongs_to(resources@[found as int], package@),
        decreases resources@.len() - i,
    {
        assert(resources@.subrange(0, i as int + 1).drop_last() =~= resources@.subrange(
            0,
            i as int,
        ));
        if resource_belongs_to(&resources[i], package) {
            if count == 0 {
                found = i;
            }
            count = count + 1;
        }
        i = i + 1;
    }
    assert(resources@.subrange(0, resources@.len() as int) =~= resources@);
    if count == 1 {
        Ok(found)
    } else {
        Err(SamEnvError::ResourceCount(count))
    }
}

/// The declaration of one field, read from environment variable `name`.
pub open spec fn field_text(name: Seq<char>) -> Seq<char> {
    "\n#[envconfig(from = \""@ + name + "\")]\n"@ + lower_of(name) + ": String,"@
}

/// The field declarations for `names`, separated by newlines.
pub open spec fn fields_text(names: Seq<String>) -> Seq<char>
    decreases names.len(),
{
    if names.len() == 0 {
        Seq::empty()
    } else if names.len() == 1 {
        field_text(names[0]@)
    } else {
        fields_text(names.drop_last()) + "\n"@ + field_text(names.last()@)
    }
}

/// The generated source for a struct named `name` with field text `fields`.
pub open spec fn struct_text(name: Seq<char>, fields: Seq<char>) -> Seq<char> {
    "\nuse envconfig::Envconfig;\n\n#[derive(Debug, Envconfig)]\npub struct "@ + name
        + " {\n    "@ + fields + "\n}"@
}

/// Writes the field declarations for the environment variables `names`.
pub fn env_fields(names: &Vec<String>) -> (r: String)
    ensures
        r@ == fields_text(names@),
{
    let mut out = String::new();
    let mut i: usize = 0;
    while i < names.len()
        invariant
            i <= names@.len(),
            out@ == fields_text(names@.subrange(0, i as int)),
        decreases names@.len() - i,
    {
        let ghost prefix = names@.subrange(0, i as int + 1);
        assert(prefix.drop_last() =~= names@.subrange(0, i as int));
        if i > 0 {
            out.append("\n");
        }
        out.append("\n#[envconfig(from = \"");
        out.append(names[i].as_str());
        out.append("\")]\n");
        let lower = lowercase(names[i].as_str());
        out.append(lower.as_str());
        out.append(": String,");
        proof {
            if i == 0 {
                assert(out@ =~= field_text(prefix[0]@));
            } else {
                assert(out@ =~= fields_text(prefix.drop_last()) + "\n"@ + field_text(
                    prefix.last()@,
                ));
            }
        }
        i = i + 1;
    }
    assert(names@.subrange(0, names@.len() as int) =~= names@);
    out
}

/// Generates the source of the environment struct `struct_name` for the
/// one resource of package `package` among `resources` (`None` when the
/// template has no resources mapping). A resource without environment
/// variables gives a struct without fields.
pub fn sam_env_source(
    resources: Option<Vec<TemplateResource>>,
    package: &str,
    struct_name: &str,
) -> (r: Result<String, SamEnvError>)
    ensures
        resources is None ==> r == Err::<String, SamEnvError>(SamEnvError::MissingResources),
        resources matches Some(rs) ==> {
            &&& r is Ok <==> count_belonging(rs@, package@) == 1
            &&& r matches Err(e) ==> e == SamEnvError::ResourceCount(
                count_belonging(rs@, package@) as usize,
            )
            &&& r matches Ok(text) ==> exists|i: int|
                0 <= i < rs@.len() && belongs_to(rs@[i], package@) && text@ == struct_text(
                    struct_name@,
                    match rs@[i].env_var_names {
                        Some(names) => fields_text(names@),
                        None => Seq::empty(),
                    },
                )
        },
{
    let rs = match resources {
        Some(rs) => rs,
        None => return Err(SamEnvError::MissingResources),
    };
    let i = match select_resource(&rs, package) {
        Ok(i) => i,
        Err(e) => return Err(e),
    };
    let fields = match &rs[i].env_var_names {
        Some(names) => env_fields(names),
        None => String::new(),
    };
    let mut out = String::from_str("\nuse envconfig::Envconfig;\n\n#[derive(Debug, Envconfig)]\npub struct ");
    out.append(struct_name);
    out.append(" {\n    ");
    out.append(fields.as_str());
    out.append("\n}");
    Ok(out)
}

} // verus!
