//! The bundled static reference set: the hand-curated records served when
//! neither cache nor network is available, and the sole source of screenshot
//! links merged into network results.

use vstd::prelude::*;
use vstd::string::StringExecFns;

use crate::model::Repo;
use crate::model::RepoView;

verus! {

/// Shape shared by every record of the reference set: description, language
/// and screenshot present, timestamp empty.
pub open spec fn fallback_entry(
    name: Seq<char>,
    description: Seq<char>,
    html_url: Seq<char>,
    language: Seq<char>,
    stargazers_count: u32,
    screenshot: Seq<char>,
) -> RepoView {
    RepoView {
        name: name,
        description: Some(description),
        html_url: html_url,
        language: Some(language),
        stargazers_count: stargazers_count,
        updated_at: Seq::empty(),
        screenshot: Some(screenshot),
    }
}

/// The content of the static reference set, record by record.
pub open spec fn static_fallback_view() -> Seq<RepoView> {
    seq![
        fallback_entry(
            "Senet"@,
            "One of the oldest known board games, dating back to ancient Egypt (around 3100 BCE). Played on 30 squares in three rows. Players move pieces based on dice throws, with special rules for squares like the House of Water and House of Happiness. Senet means 'passing' in ancient Egyptian\u{2014}the soul's passage through the underworld."@,
            "https://github.com/azuree0/Senet"@,
            "Rust"@,
            1,
            "https://github.com/user-attachments/assets/b12746e5-fb64-41a4-b343-5ec77166cff6"@,
        ),
        fallback_entry(
            "Latrones"@,
            "Roman board game"@,
            "https://github.com/azuree0/Latrones"@,
            "Rust"@,
            0,
            "https://github.com/user-attachments/assets/182fd35b-a924-4749-8f37-9f48060ec49f"@,
        ),
        fallback_entry(
            "Chaturanga"@,
            "Ancient Indian chess precursor"@,
            "https://github.com/azuree0/Chaturanga"@,
            "Rust"@,
            1,
            "https://github.com/user-attachments/assets/ebd040e8-8939-4ad7-bc43-e655a4ba6582"@,
        ),
        fallback_entry(
            "Go"@,
            "Go board game"@,
            "https://github.com/azuree0/Go"@,
            "Rust"@,
            1,
            "https://github.com/user-attachments/assets/f52cbdc4-afe9-4169-8a03-ed025b6a834a"@,
        ),
        fallback_entry(
            "Game-of-Ur"@,
            "Royal Game of Ur"@,
            "https://github.com/azuree0/Game-of-Ur"@,
            "Rust"@,
            1,
            "https://github.com/user-attachments/assets/fe00622d-3483-47b2-b9ff-b00a17f4c159"@,
        ),
        fallback_entry(
            "Mehen"@,
            "Ancient Egyptian snake game"@,
            "https://github.com/azuree0/Mehen"@,
            "Rust"@,
            1,
            "https://github.com/user-attachments/assets/b9a324c1-822d-49ed-b88e-13fbc2b17f04"@,
        ),
        fallback_entry(
            "Nard"@,
            "Backgammon variant"@,
            "https://github.com/azuree0/Nard"@,
            "Rust"@,
            0,
            "https://github.com/user-attachments/assets/9cdc289f-cd3d-433f-af37-d508c45c7179"@,
        ),
        fallback_entry(
            "Silent-data-corruption"@,
            "C++ project"@,
            "https://github.com/azuree0/Silent-data-corruption"@,
            "C++"@,
            0,
            "https://github.com/user-attachments/assets/1db52073-faf9-4e6d-895c-36c66dc1625d"@,
        ),
        fallback_entry(
            "Rubik"@,
            "C++ project"@,
            "https://github.com/azuree0/Rubik"@,
            "C++"@,
            1,
            "https://github.com/user-attachments/assets/5de4e3d7-b660-4ea4-a513-aca077b695cf"@,
        ),
        fallback_entry(
            "Liquid"@,
            "Liquid templates"@,
            "https://github.com/azuree0/Liquid"@,
            "Liquid"@,
            0,
            "https://github.com/user-attachments/assets/ac0f0af2-e95e-4591-b848-e30c89675822"@,
        ),
        fallback_entry(
            "Bria-ai"@,
            "Python AI project"@,
            "https://github.com/azuree0/Bria-ai"@,
            "Python"@,
            0,
            "https://github.com/user-attachments/assets/ed5d7f08-27a7-40fb-a93a-6f2b4b89cab4"@,
        ),
        fallback_entry(
            "Aerospace"@,
            "Python project"@,
            "https://github.com/azuree0/Aerospace"@,
            "Python"@,
            2,
            "https://github.com/user-attachments/assets/86f9cac2-334b-4cf7-b374-d82dba4bd186"@,
        ),
    ]
}

/// Builds one record of the reference set.
fn repo_entry(
    name: &str,
    description: &str,
    html_url: &str,
    language: &str,
    stargazers_count: u32,
    screenshot: &str,
) -> (r: Repo)
    ensures
        r.deep_view() == fallback_entry(
            name@,
            description@,
            html_url@,
            language@,
            stargazers_count,
            screenshot@,
        ),
{
    let r = Repo {
        name: String::from_str(name),
        description: Some(String::from_str(description)),
        html_url: String::from_str(html_url),
        language: Some(String::from_str(language)),
        stargazers_count: stargazers_count,
        updated_at: String::new(),
        screenshot: Some(String::from_str(screenshot)),
    };
    proof {
        assert(r.deep_view() =~= fallback_entry(
            name@,
            description@,
            html_url@,
            language@,
            stargazers_count,
            screenshot@,
        ));
    }
    r
}

/// The static reference set, exactly as described by
/// [`static_fallback_view`].
pub fn static_fallback() -> (repos: Vec<Repo>)
    ensures
        repos.deep_view() == static_fallback_view(),
{
    let mut repos: Vec<Repo> = Vec::new();
    repos.push(repo_entry(
        "Senet",
        "One of the oldest known board games, dating back to ancient Egypt (around 3100 BCE). Played on 30 squares in three rows. Players move pieces based on dice throws, with special rules for squares like the House of Water and House of Happiness. Senet means 'passing' in ancient Egyptian\u{2014}the soul's passage through the underworld.",
        "https://github.com/azuree0/Senet",
        "Rust",
        1,
        "https://github.com/user-attachments/assets/b12746e5-fb64-41a4-b343-5ec77166cff6",
    ));
    repos.push(repo_entry(
        "Latrones",
        "Roman board game",
        "https://github.com/azuree0/Latrones",
        "Rust",
        0,
        "https://github.com/user-attachments/assets/182fd35b-a924-4749-8f37-9f48060ec49f",
    ));
    repos.push(repo_entry(
        "Chaturanga",
        "Ancient Indian chess precursor",
        "https://github.com/azuree0/Chaturanga",
        "Rust",
        1,
        "https://github.com/user-attachments/assets/ebd040e8-8939-4ad7-bc43-e655a4ba6582",
    ));
    repos.push(repo_entry(
        "Go",
        "Go board game",
        "https://github.com/azuree0/Go",
        "Rust",
        1,
        "https://github.com/user-attachments/assets/f52cbdc4-afe9-4169-8a03-ed025b6a834a",
    ));
    repos.push(repo_entry(
        "Game-of-Ur",
        "Royal Game of Ur",
        "https://github.com/azuree0/Game-of-Ur",
        "Rust",
        1,
        "https://github.com/user-attachments/assets/fe00622d-3483-47b2-b9ff-b00a17f4c159",
    ));
    repos.push(repo_entry(
        "Mehen",
        "Ancient Egyptian snake game",
        "https://github.com/azuree0/Mehen",
        "Rust",
        1,
        "https://github.com/user-attachments/assets/b9a324c1-822d-49ed-b88e-13fbc2b17f04",
    ));
    repos.push(repo_entry(
        "Nard",
        "Backgammon variant",
        "https://github.com/azuree0/Nard",
        "Rust",
        0,
        "https://github.com/user-attachments/assets/9cdc289f-cd3d-433f-af37-d508c45c7179",
    ));
    repos.push(repo_entry(
        "Silent-data-corruption",
        "C++ project",
        "https://github.com/azuree0/Silent-data-corruption",
        "C++",
        0,
        "https://github.com/user-attachments/assets/1db52073-faf9-4e6d-895c-36c66dc1625d",
    ));
    repos.push(repo_entry(
        "Rubik",
        "C++ project",
        "https://github.com/azuree0/Rubik",
        "C++",
        1,
        "https://github.com/user-attachments/assets/5de4e3d7-b660-4ea4-a513-aca077b695cf",
    ));
    repos.push(repo_entry(
        "Liquid",
        "Liquid templates",
        "https://github.com/azuree0/Liquid",
        "Liquid",
        0,
        "https://github.com/user-attachments/assets/ac0f0af2-e95e-4591-b848-e30c89675822",
    ));
    repos.push(repo_entry(
        "Bria-ai",
        "Python AI project",
        "https://github.com/azuree0/Bria-ai",
        "Python",
        0,
        "https://github.com/user-attachments/assets/ed5d7f08-27a7-40fb-a93a-6f2b4b89cab4",
    ));
    repos.push(repo_entry(
        "Aerospace",
        "Python project",
        "https://github.com/azuree0/Aerospace",
        "Python",
        2,
        "https://github.com/user-attachments/assets/86f9cac2-334b-4cf7-b374-d82dba4bd186",
    ));
    proof {
        assert(repos.deep_view() =~= static_fallback_view());
    }
    repos
}

} // verus!
