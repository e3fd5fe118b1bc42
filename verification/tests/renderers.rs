use prism::renderers::{badge_for_lowercase, get_difficulty_badge, get_fix_icon, render_fix_list};
use prism::report::{DiagnosticReport, Severity, SuggestedFix};

fn create_test_report() -> DiagnosticReport {
    DiagnosticReport {
        error_category: "Budget".to_string(),
        error_code: 1,
        error_name: "cpu_limit_exceeded".to_string(),
        summary: "CPU usage exceeded limit".to_string(),
        detailed_explanation: "The contract used more CPU than allowed.".to_string(),
        severity: Severity::Error,
        root_causes: vec![],
        suggested_fixes: vec![
            SuggestedFix {
                description: "Reduce the number of loop iterations".to_string(),
                difficulty: "easy".to_string(),
                requires_upgrade: false,
                example: Some("Use for_each instead of iterate".to_string()),
            },
            SuggestedFix {
                description: "Optimize your contract logic".to_string(),
                difficulty: "medium".to_string(),
                requires_upgrade: false,
                example: None,
            },
            SuggestedFix {
                description: "Upgrade to a newer contract version".to_string(),
                difficulty: "hard".to_string(),
                requires_upgrade: true,
                example: None,
            },
        ],
        related_errors: vec![],
    }
}

#[test]
fn test_render_fix_list_with_fixes() {
    let report = create_test_report();
    let output = render_fix_list(&report);

    assert!(output.contains("Actionable Fixes:"));
    assert!(output.contains("🔧"));
    assert!(output.contains("📋"));
    assert!(output.contains("🔒"));
    assert!(output.contains("[easy]"));
    assert!(output.contains("[medium]"));
    assert!(output.contains("[hard]"));
    assert!(output.contains("May require contract upgrade"));
}

#[test]
fn test_render_fix_list_empty() {
    let mut report = create_test_report();
    report.suggested_fixes = vec![];
    let output = render_fix_list(&report);

    assert!(output.is_empty());
}

#[test]
fn test_get_fix_icon() {
    let fix_with_example = SuggestedFix {
        description: "Test".to_string(),
        difficulty: "easy".to_string(),
        requires_upgrade: false,
        example: Some("code".to_string()),
    };
    assert_eq!(get_fix_icon(&fix_with_example), "📋");

    let fix_requires_upgrade = SuggestedFix {
        description: "Test".to_string(),
        difficulty: "easy".to_string(),
        requires_upgrade: true,
        example: None,
    };
    assert_eq!(get_fix_icon(&fix_requires_upgrade), "🔒");

    let fix_standard = SuggestedFix {
        description: "Test".to_string(),
        difficulty: "easy".to_string(),
        requires_upgrade: false,
        example: None,
    };
    assert_eq!(get_fix_icon(&fix_standard), "🔧");
}

#[test]
fn test_get_difficulty_badge() {
    assert_eq!(get_difficulty_badge("easy"), " [easy]");
    assert_eq!(get_difficulty_badge("medium"), " [medium]");
    assert_eq!(get_difficulty_badge("hard"), " [hard]");
    assert_eq!(get_difficulty_badge("unknown"), "");
}

#[test]
fn difficulty_badge_ignores_letter_case() {
    assert_eq!(get_difficulty_badge("EASY"), " [easy]");
    assert_eq!(get_difficulty_badge("Medium"), " [medium]");
    assert_eq!(get_difficulty_badge("hArD"), " [hard]");
    assert_eq!(badge_for_lowercase("hard"), " [hard]");
    assert_eq!(badge_for_lowercase("Hard"), "");
}

#[test]
fn render_fix_list_exact_text() {
    let report = create_test_report();
    let expected = [
        "Actionable Fixes:\n",
        "  📋 Reduce the number of loop iterations [easy]\n",
        "    📄 Example: Use for_each instead of iterate\n",
        "\n",
        "  🔧 Optimize your contract logic [medium]\n",
        "\n",
        "  🔒 Upgrade to a newer contract version [hard]\n",
        "    ⚡ May require contract upgrade\n",
    ]
    .concat();
    assert_eq!(render_fix_list(&report), expected);
}

#[test]
fn upgrade_icon_wins_over_example() {
    let fix = SuggestedFix {
        description: "Both".to_string(),
        difficulty: "other".to_string(),
        requires_upgrade: true,
        example: Some("x".to_string()),
    };
    assert_eq!(get_fix_icon(&fix), "🔒");
    let mut report = create_test_report();
    report.suggested_fixes = vec![fix];
    assert_eq!(
        render_fix_list(&report),
        "Actionable Fixes:\n  🔒 Both\n    ⚡ May require contract upgrade\n    📄 Example: x\n"
    );
}
