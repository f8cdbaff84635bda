//! The text the tool emits: the controller and service source templates,
//! and the PascalCase form of a file name used for the type names inside
//! them.  The caller writes the returned text to disk.

use vstd::prelude::*;
use vstd::string::StrSliceExecFns;
use vstd::string::StringExecFns;

verus! {

/// The uppercase mapping of one character, as `char::to_uppercase` yields
/// it (one or more characters).
pub uninterp spec fn upper_of(c: char) -> Seq<char>;

/// Relies on `char::to_uppercase`: the mapping depends on the character
/// alone.
#[verifier::external_body]
fn char_upper(c: char) -> (r: String)
    ensures
        r@ == upper_of(c),
{
    c.to_uppercase().collect::<String>()
}

/// `s` turned PascalCase, one character at a time: an underscore is
/// dropped and starts a new word, the first character of each word is
/// uppercased, every other character is kept.  `start` says whether the
/// next character begins a word.
pub open spec fn pascal_from(s: Seq<char>, start: bool) -> Seq<char>
    decreases s.len(),
{
    if s.len() == 0 {
        Seq::empty()
    } else if s[0] == '_' {
        pascal_from(s.drop_first(), true)
    } else if start {
        upper_of(s[0]) + pascal_from(s.drop_first(), false)
    } else {
        seq![s[0]] + pascal_from(s.drop_first(), false)
    }
}

/// The PascalCase form of `s`: its underscore-separated words, each with
/// its first character uppercased, concatenated.
pub open spec fn pascal_of(s: Seq<char>) -> Seq<char> {
    pascal_from(s, true)
}

/// Converts an underscore-separated name to PascalCase.
pub fn to_pascal_case(s: &str) -> (r: String)
    ensures
        r@ == pascal_of(s@),
{
    let len = s.unicode_len();
    let mut out = String::new();
    let mut start: bool = true;
    let mut i: usize = 0;
    proof {
        assert(s@.skip(0) =~= s@);
        assert(out@ + pascal_from(s@, true) =~= pascal_from(s@, true));
    }
    while i < len
        invariant
            len == s@.len(),
            0 <= i <= len,
            out@ + pascal_from(s@.skip(i as int), start) == pascal_of(s@),
        decreases len - i,
    {
        let ghost rest = s@.skip(i as int);
        let ghost before = out@;
        let c = s.get_char(i);
        proof {
            assert(rest[0] == s@[i as int]);
            assert(rest.drop_first() =~= s@.skip(i as int + 1));
        }
        if c == '_' {
            start = true;
        } else if start {
            let up = char_upper(c);
            out.append(up.as_str());
            start = false;
            proof {
                assert(out@ + pascal_from(s@.skip(i as int + 1), false) =~= before + (upper_of(c)
                    + pascal_from(rest.drop_first(), false)));
            }
        } else {
            let one = s.substring_char(i, i + 1);
            out.append(one);
            proof {
                assert(one@ =~= seq![c]);
                assert(out@ + pascal_from(s@.skip(i as int + 1), false) =~= before + (seq![c]
                    + pascal_from(rest.drop_first(), false)));
            }
        }
        i += 1;
    }
    proof {
        assert(s@.skip(len as int) =~= Seq::<char>::empty());
        assert(out@ + Seq::<char>::empty() =~= out@);
    }
    out
}

/// The controller source text: the fixed template with the service module
/// name, the PascalCase type stem, and the handler method name filled in.
pub open spec fn controller_text(file: Seq<char>, method: Seq<char>, service: Seq<char>) -> Seq<
    char,
> {
    "use axum::extract::Query;\nuse axum::extract::State;\nuse axum::response::Json;\nuse axum::Extension;\nuse error_crate::api_error::{ApiError, ApiResult};\nuse public::safe_json::SafeJson;\nuse public::public::{\n    origin_display, public_list_response, ApiResponse, AppState, PublicListResponse, QueryParams,\n    ReturnResult,\n};\nuse service_admin_chinese_hsk::"@
        + service
        + ";\n\nuse serde::{Deserialize, Serialize};\nuse utoipa::ToSchema;\n\n#[derive(Deserialize, ToSchema)]\n#[serde(rename_all = \"camelCase\")]\npub struct "@
        + pascal_of(file)
        + "Request {\n    // Add your request fields here\n}\n\n#[derive(Debug, Serialize, Deserialize, ToSchema)]\n#[serde(rename_all = \"camelCase\")]\npub struct "@
        + pascal_of(file)
        + "Response {\n    // Add your response fields here\n}\n\npub async fn "@
        + method
        + "(\n    Extension(domain): Extension<String>,\n    Query(query): Query<QueryParams>,\n    State(state): State<AppState>,\n    SafeJson(body): SafeJson<"@
        + pascal_of(file)
        + "Request>,\n) -> ApiResult<Json<ApiResponse<serde_json::Value>>> {\n    let res = "@
        + service
        + "::"@
        + method
        + "(&state.conn, &domain).await?;\n    \n    let result = origin_display(query, res, &domain);\n    \n    Ok(ApiResponse::success(result).to_json())\n}\n"@
}

/// Builds the controller source for the given names.
pub fn generate_controller_template(file_name: &str, method_name: &str, service_file_name: &str) -> (r:
    String)
    ensures
        r@ == controller_text(file_name@, method_name@, service_file_name@),
{
    let struct_name = to_pascal_case(file_name);
    let mut r =
        "use axum::extract::Query;\nuse axum::extract::State;\nuse axum::response::Json;\nuse axum::Extension;\nuse error_crate::api_error::{ApiError, ApiResult};\nuse public::safe_json::SafeJson;\nuse public::public::{\n    origin_display, public_list_response, ApiResponse, AppState, PublicListResponse, QueryParams,\n    ReturnResult,\n};\nuse service_admin_chinese_hsk::".to_owned();
    r.append(service_file_name);
    r.append(
        ";\n\nuse serde::{Deserialize, Serialize};\nuse utoipa::ToSchema;\n\n#[derive(Deserialize, ToSchema)]\n#[serde(rename_all = \"camelCase\")]\npub struct ",
    );
    r.append(struct_name.as_str());
    r.append(
        "Request {\n    // Add your request fields here\n}\n\n#[derive(Debug, Serialize, Deserialize, ToSchema)]\n#[serde(rename_all = \"camelCase\")]\npub struct ",
    );
    r.append(struct_name.as_str());
    r.append("Response {\n    // Add your response fields here\n}\n\npub async fn ");
    r.append(method_name);
    r.append(
        "(\n    Extension(domain): Extension<String>,\n    Query(query): Query<QueryParams>,\n    State(state): State<AppState>,\n    SafeJson(body): SafeJson<",
    );
    r.append(struct_name.as_str());
    r.append(
        "Request>,\n) -> ApiResult<Json<ApiResponse<serde_json::Value>>> {\n    let res = ",
    );
    r.append(service_file_name);
    r.append("::");
    r.append(method_name);
    r.append(
        "(&state.conn, &domain).await?;\n    \n    let result = origin_display(query, res, &domain);\n    \n    Ok(ApiResponse::success(result).to_json())\n}\n",
    );
    r
}

/// The service source text: the fixed template with the method name
/// filled in.
pub open spec fn service_text(method: Seq<char>) -> Seq<char> {
    "use sea_orm::DatabaseConnection;\nuse error_crate::api_error::ApiResult;\n\npub async fn "@
        + method
        + "(\n    conn: &DatabaseConnection,\n    domain: &str,\n) -> ApiResult<()> {\n    // Add your service logic here\n    \n    Ok(())\n}\n"@
}

/// Builds the service source for the given method name.
pub fn generate_service_template(method_name: &str) -> (r: String)
    ensures
        r@ == service_text(method_name@),
{
    let mut r =
        "use sea_orm::DatabaseConnection;\nuse error_crate::api_error::ApiResult;\n\npub async fn ".to_owned();
    r.append(method_name);
    r.append(
        "(\n    conn: &DatabaseConnection,\n    domain: &str,\n) -> ApiResult<()> {\n    // Add your service logic here\n    \n    Ok(())\n}\n",
    );
    r
}

/// The path of the generated source file inside `dir_path`.
pub fn source_file_path(dir_path: &str, file_name: &str) -> (r: String)
    ensures
        r@ == dir_path@ + "/"@ + file_name@ + ".rs"@,
{
    let mut r = dir_path.to_owned();
    r.append("/");
    r.append(file_name);
    r.append(".rs");
    r
}

} // verus!
