//! The two-language text table for every message the tool shows, and the
//! language selection that picks between the tables.

use vstd::prelude::*;
use vstd::string::StringExecFns;
use crate::text::join_texts;
use crate::text::join_with;

verus! {

/// The interface language for all user-facing text.
#[derive(Debug, Clone, Copy, PartialEq, Eq, Structural)]
pub enum Language {
    En,
    Zh,
}

/// The lowercase form of a text, as `str::to_lowercase` computes it.
pub uninterp spec fn lower_of(s: Seq<char>) -> Seq<char>;

/// Relies on `str::to_lowercase`: the result depends on the characters alone.
#[verifier::external_body]
fn lowercase(s: &str) -> (r: String)
    ensures
        r@ == lower_of(s@),
{
    s.to_lowercase()
}

impl Language {
    /// Reads a language code case-insensitively; anything other than "zh"
    /// selects English.
    pub fn from_str(s: &str) -> (r: Self)
        ensures
            r == (if lower_of(s@) == "zh"@ {
                Language::Zh
            } else {
                Language::En
            }),
    {
        let low = lowercase(s);
        let zh = "zh".to_owned();
        if low == zh {
            Language::Zh
        } else {
            Language::En
        }
    }
}

/// Produces every user-facing message in the active language.
pub struct I18n {
    lang: Language,
}

impl I18n {
    /// The active language.
    pub closed spec fn language(&self) -> Language {
        self.lang
    }

    pub fn new(lang: Language) -> (r: Self)
        ensures
            r.language() == lang,
    {
        Self { lang }
    }

    pub fn invalid_language(input: &str) -> (r: String)
        ensures
            r@ == "Invalid language: "@ + input@ + ". Please choose 'en' or 'zh'."@,
    {
        let mut r = "Invalid language: ".to_owned();
        r.append(input);
        r.append(". Please choose 'en' or 'zh'.");
        r
    }

    pub fn select_language_prompt() -> (r: String)
        ensures
            r@ == "Please select a language / 请选择语言"@,
    {
        "Please select a language / 请选择语言".to_owned()
    }

    pub fn target_not_found(&self) -> (r: String)
        ensures
            self.language() == Language::En ==> r@ == "Target directory not found"@,
            self.language() == Language::Zh ==> r@ == "目标目录不存在"@,
    {
        match self.lang {
            Language::En => "Target directory not found".to_owned(),
            Language::Zh => "目标目录不存在".to_owned(),
        }
    }

    pub fn directories_not_found(&self, dirs: &Vec<String>) -> (r: String)
        ensures
            self.language() == Language::En ==> r@ == "Directory not found: "@ + join_texts(
                dirs.deep_view(),
                ", "@,
            ),
            self.language() == Language::Zh ==> r@ == "未找到目录: "@ + join_texts(
                dirs.deep_view(),
                ", "@,
            ),
    {
        let listed = join_with(dirs, ", ");
        let mut r = match self.lang {
            Language::En => "Directory not found: ".to_owned(),
            Language::Zh => "未找到目录: ".to_owned(),
        };
        r.append(listed.as_str());
        r
    }

    pub fn create_option(&self) -> (r: String)
        ensures
            self.language() == Language::En ==> r@ == "Create"@,
            self.language() == Language::Zh ==> r@ == "新建"@,
    {
        match self.lang {
            Language::En => "Create".to_owned(),
            Language::Zh => "新建".to_owned(),
        }
    }

    pub fn cancel_option(&self) -> (r: String)
        ensures
            self.language() == Language::En ==> r@ == "Cancel"@,
            self.language() == Language::Zh ==> r@ == "放弃"@,
    {
        match self.lang {
            Language::En => "Cancel".to_owned(),
            Language::Zh => "放弃".to_owned(),
        }
    }

    pub fn select_action_prompt(&self) -> (r: String)
        ensures
            self.language() == Language::En ==> r@ == "Please select an action"@,
            self.language() == Language::Zh ==> r@ == "请选择操作"@,
    {
        match self.lang {
            Language::En => "Please select an action".to_owned(),
            Language::Zh => "请选择操作".to_owned(),
        }
    }

    pub fn directories_created(&self) -> (r: String)
        ensures
            self.language() == Language::En ==> r@ == "Directories created successfully"@,
            self.language() == Language::Zh ==> r@ == "目录创建成功"@,
    {
        match self.lang {
            Language::En => "Directories created successfully".to_owned(),
            Language::Zh => "目录创建成功".to_owned(),
        }
    }

    pub fn task_cancelled(&self, dirs: &Vec<String>) -> (r: String)
        ensures
            self.language() == Language::En ==> r@ == "User cancelled creation of: "@ + join_texts(
                dirs.deep_view(),
                ", "@,
            ),
            self.language() == Language::Zh ==> r@ == "用户放弃创建: "@ + join_texts(
                dirs.deep_view(),
                ", "@,
            ),
    {
        let listed = join_with(dirs, ", ");
        let mut r = match self.lang {
            Language::En => "User cancelled creation of: ".to_owned(),
            Language::Zh => "用户放弃创建: ".to_owned(),
        };
        r.append(listed.as_str());
        r
    }

    pub fn create_directories_option(&self, dirs: &Vec<String>) -> (r: String)
        ensures
            self.language() == Language::En ==> r@ == "Create "@ + join_texts(
                dirs.deep_view(),
                ", "@,
            ) + " directories"@,
            self.language() == Language::Zh ==> r@ == "创建 "@ + join_texts(
                dirs.deep_view(),
                ", "@,
            ) + " 目录"@,
    {
        let listed = join_with(dirs, ", ");
        match self.lang {
            Language::En => {
                let mut r = "Create ".to_owned();
                r.append(listed.as_str());
                r.append(" directories");
                r
            },
            Language::Zh => {
                let mut r = "创建 ".to_owned();
                r.append(listed.as_str());
                r.append(" 目录");
                r
            },
        }
    }

    pub fn cancel_and_exit_option(&self) -> (r: String)
        ensures
            self.language() == Language::En ==> r@ == "Cancel and exit, task ended"@,
            self.language() == Language::Zh ==> r@ == "放弃创建，本次任务结束"@,
    {
        match self.lang {
            Language::En => "Cancel and exit, task ended".to_owned(),
            Language::Zh => "放弃创建，本次任务结束".to_owned(),
        }
    }

    pub fn task_ended(&self) -> (r: String)
        ensures
            self.language() == Language::En ==> r@ == "Task ended"@,
            self.language() == Language::Zh ==> r@ == "本次任务已经结束"@,
    {
        match self.lang {
            Language::En => "Task ended".to_owned(),
            Language::Zh => "本次任务已经结束".to_owned(),
        }
    }

    pub fn navigate_controller(&self) -> (r: String)
        ensures
            self.language() == Language::En ==> r@ == "=== Navigate Controller Directory ==="@,
            self.language() == Language::Zh ==> r@ == "=== 导航控制器目录 ==="@,
    {
        match self.lang {
            Language::En => "=== Navigate Controller Directory ===".to_owned(),
            Language::Zh => "=== 导航控制器目录 ===".to_owned(),
        }
    }

    pub fn navigate_service(&self) -> (r: String)
        ensures
            self.language() == Language::En ==> r@ == "=== Navigate Service Directory ==="@,
            self.language() == Language::Zh ==> r@ == "=== 导航服务目录 ==="@,
    {
        match self.lang {
            Language::En => "=== Navigate Service Directory ===".to_owned(),
            Language::Zh => "=== 导航服务目录 ===".to_owned(),
        }
    }

    pub fn current_path(&self) -> (r: String)
        ensures
            self.language() == Language::En ==> r@ == "Current path"@,
            self.language() == Language::Zh ==> r@ == "当前路径"@,
    {
        match self.lang {
            Language::En => "Current path".to_owned(),
            Language::Zh => "当前路径".to_owned(),
        }
    }

    pub fn done_option(&self) -> (r: String)
        ensures
            self.language() == Language::En ==> r@ == "✓ Done (create file here)"@,
            self.language() == Language::Zh ==> r@ == "✓ 选好了（在此创建文件）"@,
    {
        match self.lang {
            Language::En => "✓ Done (create file here)".to_owned(),
            Language::Zh => "✓ 选好了（在此创建文件）".to_owned(),
        }
    }

    pub fn select_directory_prompt(&self) -> (r: String)
        ensures
            self.language() == Language::En ==> r@ == "Select a directory or choose 'Done'"@,
            self.language() == Language::Zh ==> r@ == "选择目录或选择'选好了'"@,
    {
        match self.lang {
            Language::En => "Select a directory or choose 'Done'".to_owned(),
            Language::Zh => "选择目录或选择'选好了'".to_owned(),
        }
    }

    pub fn controller_file_prompt(&self) -> (r: String)
        ensures
            self.language() == Language::En ==> r@ == "Enter controller file name (without .rs)"@,
            self.language() == Language::Zh ==> r@ == "请输入控制器文件名称（不含.rs）"@,
    {
        match self.lang {
            Language::En => "Enter controller file name (without .rs)".to_owned(),
            Language::Zh => "请输入控制器文件名称（不含.rs）".to_owned(),
        }
    }

    pub fn service_file_prompt(&self) -> (r: String)
        ensures
            self.language() == Language::En ==> r@ == "Enter service file name (without .rs)"@,
            self.language() == Language::Zh ==> r@ == "请输入服务文件名称（不含.rs）"@,
    {
        match self.lang {
            Language::En => "Enter service file name (without .rs)".to_owned(),
            Language::Zh => "请输入服务文件名称（不含.rs）".to_owned(),
        }
    }

    pub fn method_name_prompt(&self) -> (r: String)
        ensures
            self.language() == Language::En ==> r@
                == "Enter method name (leave empty to use file name)"@,
            self.language() == Language::Zh ==> r@ == "请输入方法名（如果不填写，则与文件名相同）"@,
    {
        match self.lang {
            Language::En => "Enter method name (leave empty to use file name)".to_owned(),
            Language::Zh => "请输入方法名（如果不填写，则与文件名相同）".to_owned(),
        }
    }

    pub fn add_service_suffix_option(&self) -> (r: String)
        ensures
            self.language() == Language::En ==> r@ == "Add '_service' suffix to file name"@,
            self.language() == Language::Zh ==> r@ == "自动给文件名加 _service 后缀"@,
    {
        match self.lang {
            Language::En => "Add '_service' suffix to file name".to_owned(),
            Language::Zh => "自动给文件名加 _service 后缀".to_owned(),
        }
    }

    pub fn skip_option(&self) -> (r: String)
        ensures
            self.language() == Language::En ==> r@ == "Skip"@,
            self.language() == Language::Zh ==> r@ == "跳过"@,
    {
        match self.lang {
            Language::En => "Skip".to_owned(),
            Language::Zh => "跳过".to_owned(),
        }
    }

    pub fn service_suffix_prompt(&self) -> (r: String)
        ensures
            self.language() == Language::En ==> r@ == "Add service suffix?"@,
            self.language() == Language::Zh ==> r@ == "是否添加服务后缀？"@,
    {
        match self.lang {
            Language::En => "Add service suffix?".to_owned(),
            Language::Zh => "是否添加服务后缀？".to_owned(),
        }
    }

    pub fn generation_complete(&self) -> (r: String)
        ensures
            self.language() == Language::En ==> r@ == "✓ Code generation completed successfully!"@,
            self.language() == Language::Zh ==> r@ == "✓ 代码生成完成！"@,
    {
        match self.lang {
            Language::En => "✓ Code generation completed successfully!".to_owned(),
            Language::Zh => "✓ 代码生成完成！".to_owned(),
        }
    }

    pub fn file_created(&self, path: &str) -> (r: String)
        ensures
            self.language() == Language::En ==> r@ == "✓ Created: "@ + path@,
            self.language() == Language::Zh ==> r@ == "✓ 已创建: "@ + path@,
    {
        let mut r = match self.lang {
            Language::En => "✓ Created: ".to_owned(),
            Language::Zh => "✓ 已创建: ".to_owned(),
        };
        r.append(path);
        r
    }

    pub fn mod_updated(&self, path: &str) -> (r: String)
        ensures
            self.language() == Language::En ==> r@ == "✓ Updated: "@ + path@,
            self.language() == Language::Zh ==> r@ == "✓ 已更新: "@ + path@,
    {
        let mut r = match self.lang {
            Language::En => "✓ Updated: ".to_owned(),
            Language::Zh => "✓ 已更新: ".to_owned(),
        };
        r.append(path);
        r
    }

    pub fn no_subdirectories(&self) -> (r: String)
        ensures
            self.language() == Language::En ==> r@
                == "No subdirectories found, creating file in current directory"@,
            self.language() == Language::Zh ==> r@ == "未找到子目录，将在当前目录创建文件"@,
    {
        match self.lang {
            Language::En => "No subdirectories found, creating file in current directory".to_owned(),
            Language::Zh => "未找到子目录，将在当前目录创建文件".to_owned(),
        }
    }
}

} // verus!
